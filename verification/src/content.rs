//! Random printable content for the synthetic files.

use rand::rngs::ThreadRng;
use rand::Rng;
use vstd::prelude::*;

verus! {

/// Lowest character code that counts as printable (the space).
pub const PRINTABLE_MIN: u8 = 32;

/// Highest character code that counts as printable (the tilde).
pub const PRINTABLE_MAX: u8 = 126;

/// Whether `c` is a printable ASCII character.
pub open spec fn is_printable(c: char) -> bool {
    PRINTABLE_MIN <= c as int <= PRINTABLE_MAX
}

/// Whether every character of `text` is printable ASCII.
pub open spec fn all_printable(text: Seq<char>) -> bool {
    forall|i: int| 0 <= i < text.len() ==> is_printable(#[trigger] text[i])
}

/// `rand::rngs::ThreadRng`, the handle to the thread-local generator. Nothing
/// is known of its state.
#[verifier::external_type_specification]
#[verifier::external_body]
pub struct ExThreadRng(ThreadRng);

/// `rand::thread_rng` hands out the calling thread's generator; nothing is
/// claimed of it.
pub assume_specification[ rand::thread_rng ]() -> (rng: ThreadRng)
;

/// `String::push` appends one character to the end of the string.
pub assume_specification[ String::push ](text: &mut String, c: char)
    ensures
        final(text)@ == old(text)@.push(c),
;

/// `Rng::gen_range` on the half-open range `low..high`: the value drawn lies
/// in the range, whatever the generator's state. The outside function panics
/// on an empty range, which `requires` leaves out.
#[verifier::external_body]
fn draw_in_range(rng: &mut ThreadRng, low: i32, high: i32) -> (value: i32)
    requires
        low < high,
    ensures
        low <= value < high,
{
    rng.gen_range(low..high)
}

/// The printable character whose code is `code`, if there is one.
pub fn printable_char(code: i32) -> (c: Option<char>)
    ensures
        c is Some <==> PRINTABLE_MIN <= code <= PRINTABLE_MAX,
        c matches Some(found) ==> found as int == code && is_printable(found),
{
    if PRINTABLE_MIN as i32 <= code && code <= PRINTABLE_MAX as i32 {
        Some(code as u8 as char)
    } else {
        None
    }
}

/// A text of exactly `size` characters, each drawn at random from the
/// printable ASCII characters.
pub fn printable_content(size: usize) -> (content: String)
    ensures
        content@.len() == size,
        all_printable(content@),
{
    let mut rng = rand::thread_rng();
    let mut content = String::new();
    let mut written: usize = 0;
    while written < size
        invariant
            written <= size,
            content@.len() == written,
            all_printable(content@),
        decreases size - written,
    {
        let code: i32 = draw_in_range(&mut rng, PRINTABLE_MIN as i32, PRINTABLE_MAX as i32 + 1);
        let drawn = printable_char(code);
        content.push(drawn.unwrap());
        written += 1;
    }
    content
}

} // verus!
