//! Small operations on text, stated over sequences of characters.

use vstd::prelude::*;
use vstd::string::*;

verus! {

/// Whether two texts hold the same characters.
pub fn same_text(a: &str, b: &str) -> (r: bool)
    ensures
        r == (a@ == b@),
{
    let left: String = a.to_owned();
    let right: String = b.to_owned();
    left == right
}

/// Whether `text` ends in `suffix`.
pub open spec fn has_suffix(text: Seq<char>, suffix: Seq<char>) -> bool {
    text.len() >= suffix.len() && text.subrange(text.len() - suffix.len(), text.len() as int)
        == suffix
}

/// The suffix by which a message is taken for an animated image.
pub open spec fn gif_suffix() -> Seq<char> {
    seq!['.', 'g', 'i', 'f']
}

/// Whether a message's text is to be shown as an inline image: its last four
/// characters are exactly `.gif`, in this case and no other.
pub fn is_gif_link(text: &str) -> (r: bool)
    ensures
        r == has_suffix(text@, gif_suffix()),
{
    let n: usize = text.unicode_len();
    if n < 4 {
        return false;
    }
    let r = text.get_char(n - 4) == '.' && text.get_char(n - 3) == 'g' && text.get_char(n - 2)
        == 'i' && text.get_char(n - 1) == 'f';
    proof {
        let tail = text@.subrange(n - 4, n as int);
        assert(tail.len() == 4);
        assert(tail[0] == text@[n - 4]);
        assert(tail[1] == text@[n - 3]);
        assert(tail[2] == text@[n - 2]);
        assert(tail[3] == text@[n - 1]);
        if r {
            assert(tail =~= gif_suffix());
        } else {
            assert(gif_suffix()[0] == '.');
            assert(gif_suffix()[1] == 'g');
            assert(gif_suffix()[2] == 'i');
            assert(gif_suffix()[3] == 'f');
        }
    }
    r
}

/// What `str::trim` leaves of a text.
pub uninterp spec fn trimmed(text: Seq<char>) -> Seq<char>;

/// `str::trim` of std: the text without its leading and trailing white space.
/// The contract only names the result.
#[verifier::external_body]
fn trim(text: &str) -> (r: &str)
    ensures
        r@ == trimmed(text@),
{
    text.trim()
}

/// Whether a text is blank: nothing is left of it once it is trimmed.
pub open spec fn blank(text: Seq<char>) -> bool {
    trimmed(text).len() == 0
}

/// Whether `text` is empty or white space only.
pub fn is_blank(text: &str) -> (r: bool)
    ensures
        r == blank(text@),
{
    trim(text).is_empty()
}

/// The concatenation of two texts.
pub fn joined(a: &str, b: &str) -> (r: String)
    ensures
        r@ == a@ + b@,
{
    let mut r: String = a.to_owned();
    r.append(b);
    r
}

} // verus!
