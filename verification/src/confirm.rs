//! The operator's answer to the question whether the target may be overwritten.

use vstd::prelude::*;

verus! {

/// Whether a character is left out of the answer: one that ends a line.
pub open spec fn is_line_end(c: char) -> bool {
    c == '\n' || c == '\r'
}

/// The answer without the characters that end a line, wherever they stand.
pub open spec fn stripped(answer: Seq<char>) -> Seq<char> {
    answer.filter(|c: char| !is_line_end(c))
}

/// Whether the answer is a yes: with the line ends taken out, it is the one
/// letter `y` or `Y`. Any other answer, the empty one too, is a no.
pub open spec fn affirmative(answer: Seq<char>) -> bool {
    stripped(answer) == seq!['y'] || stripped(answer) == seq!['Y']
}

/// The question put to the operator, which names the target.
pub open spec fn question(target: Seq<char>) -> Seq<char> {
    "Overwrite "@ + target + "? [y,n] "@
}

/// The question to put to the operator before anything is done to `target`.
pub fn prompt(target: &str) -> (text: String)
    ensures
        text@ == question(target@),
{
    String::from_str("Overwrite ").concat(target).concat("? [y,n] ")
}

/// Whether the operator said yes.
pub fn is_affirmative(answer: &str) -> (yes: bool)
    ensures
        yes == affirmative(answer@),
{
    let len: usize = answer.unicode_len();
    let mut kept: usize = 0;
    let mut first: char = ' ';
    let mut i: usize = 0;
    while i < len
        invariant
            len == answer@.len(),
            0 <= i <= len,
            kept <= 2,
            kept == 0 ==> stripped(answer@.take(i as int)).len() == 0,
            kept == 1 ==> stripped(answer@.take(i as int)) == seq![first],
            kept == 2 ==> stripped(answer@.take(i as int)).len() >= 2,
        decreases len - i,
    {
        let c: char = answer.get_char(i);
        proof {
            let pred = |c: char| !is_line_end(c);
            let upto = answer@.take(i + 1);
            assert(upto.drop_last() == answer@.take(i as int));
            assert(upto.last() == c);
            reveal(Seq::filter);
            assert(stripped(upto) == if pred(c) {
                stripped(answer@.take(i as int)).push(c)
            } else {
                stripped(answer@.take(i as int))
            });
        }
        if c != '\n' && c != '\r' {
            if kept == 0 {
                first = c;
                kept = 1;
            } else {
                kept = 2;
            }
        }
        i = i + 1;
    }
    assert(answer@.take(len as int) == answer@);
    assert(seq!['y'].len() == 1 && seq!['Y'].len() == 1 && seq!['y'][0] == 'y' && seq!['Y'][0]
        == 'Y');
    kept == 1 && (first == 'y' || first == 'Y')
}

} // verus!
