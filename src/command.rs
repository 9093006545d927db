use vstd::prelude::*;
use vstd::string::*;

use crate::input::{trim_line, trimmed};

verus! {

/// One entry of the command menu: the character that triggers it, its name and
/// what it does.
#[derive(Debug, Clone, PartialEq, Eq)]
pub struct CustomCommand {
    pub letter: char,
    pub name: String,
    pub description: String,
}

/// The trigger characters of `commands`, in menu order.
pub open spec fn letters_of(commands: Seq<CustomCommand>) -> Seq<char> {
    commands.map_values(|c: CustomCommand| c.letter)
}

/// Why a line of input selects no command.
#[derive(Debug, Clone, Copy, PartialEq, Eq, Structural)]
pub enum CommandError {
    /// The line holds nothing but whitespace.
    NoCharacter,
    /// Its first character triggers no command of the menu.
    InvalidCommand,
}

/// The command that a trimmed line selects: its first character, when that
/// character triggers some command of the menu.
pub open spec fn command_of(t: Seq<char>, letters: Seq<char>) -> Result<char, CommandError> {
    if t.len() == 0 {
        Err(CommandError::NoCharacter)
    } else if letters.contains(t[0]) {
        Ok(t[0])
    } else {
        Err(CommandError::InvalidCommand)
    }
}

impl CustomCommand {
    /// A menu entry.
    pub fn new(letter: char, name: String, description: String) -> (r: CustomCommand)
        ensures
            r.letter == letter,
            r.name@ == name@,
            r.description@ == description@,
    {
        CustomCommand { letter, name, description }
    }
}

/// All the trigger characters of the menu, in its order.
pub fn get_valid_commands_chars(commands: &Vec<CustomCommand>) -> (r: Vec<char>)
    ensures
        r@ == letters_of(commands@),
{
    let mut result: Vec<char> = Vec::new();
    let mut i: usize = 0;
    while i < commands.len()
        invariant
            i <= commands@.len(),
            result@ == letters_of(commands@.subrange(0, i as int)),
        decreases commands@.len() - i,
    {
        result.push(commands[i].letter);
        assert(commands@.subrange(0, i + 1) =~= commands@.subrange(0, i as int).push(
            commands@[i as int],
        ));
        i = i + 1;
    }
    assert(commands@.subrange(0, commands@.len() as int) =~= commands@);
    result
}

/// Some command of the menu is triggered by `c`.
pub fn is_valid_trigger(commands: &Vec<CustomCommand>, c: char) -> (r: bool)
    ensures
        r == letters_of(commands@).contains(c),
{
    let chars = get_valid_commands_chars(commands);
    let mut i: usize = 0;
    while i < chars.len()
        invariant
            chars@ == letters_of(commands@),
            i <= chars@.len(),
            forall|j: int| 0 <= j < i ==> chars@[j] != c,
        decreases chars@.len() - i,
    {
        if chars[i] == c {
            return true;
        }
        i = i + 1;
    }
    false
}

/// The command that an already trimmed line selects.
pub fn select_command(t: &str, commands: &Vec<CustomCommand>) -> (r: Result<char, CommandError>)
    ensures
        r == command_of(t@, letters_of(commands@)),
{
    if t.unicode_len() == 0 {
        return Err(CommandError::NoCharacter);
    }
    let c = t.get_char(0);
    if is_valid_trigger(commands, c) {
        Ok(c)
    } else {
        Err(CommandError::InvalidCommand)
    }
}

/// The command that a raw line of input selects, once trimmed.
pub fn read_command(line: &str, commands: &Vec<CustomCommand>) -> (r: Result<
    char,
    CommandError,
>)
    ensures
        r == command_of(trimmed(line@), letters_of(commands@)),
{
    select_command(trim_line(line), commands)
}

} // verus!
