use vstd::prelude::*;
use vstd::string::*;

verus! {

/// The text of a line with its leading and trailing whitespace removed, as
/// `str::trim` computes it.
pub uninterp spec fn trimmed(s: Seq<char>) -> Seq<char>;

/// Relies on `str::trim`: the line without leading and trailing whitespace.
#[verifier::external_body]
pub(crate) fn trim_line<'a>(s: &'a str) -> (r: &'a str)
    ensures
        r@ == trimmed(s@),
{
    s.trim()
}

/// What an answer to the yes/no question about completion means: `1` is done,
/// `0` is not done, anything else is no answer.
pub open spec fn completion_of(t: Seq<char>) -> Option<bool> {
    if t == seq!['1'] {
        Some(true)
    } else if t == seq!['0'] {
        Some(false)
    } else {
        None
    }
}

/// A line of free text as it is kept: name, due date or notes, trimmed.
pub fn clean_input(line: &str) -> (r: String)
    ensures
        r@ == trimmed(line@),
{
    trim_line(line).to_owned()
}

/// Reads an already trimmed answer to the completion question.
pub fn parse_completion(t: &str) -> (r: Option<bool>)
    ensures
        r == completion_of(t@),
{
    if t.unicode_len() == 1 {
        let c = t.get_char(0);
        if c == '1' {
            assert(t@ =~= seq!['1']);
            Some(true)
        } else if c == '0' {
            assert(t@ =~= seq!['0']);
            Some(false)
        } else {
            assert(t@ != seq!['1'] && t@ != seq!['0']) by {
                assert(seq!['1'][0] == '1');
                assert(seq!['0'][0] == '0');
            }
            None
        }
    } else {
        assert(seq!['1'].len() == 1 && seq!['0'].len() == 1);
        None
    }
}

/// Reads a raw line answering the completion question; `None` asks again.
pub fn completion_from_line(line: &str) -> (r: Option<bool>)
    ensures
        r == completion_of(trimmed(line@)),
{
    parse_completion(trim_line(line))
}

} // verus!
