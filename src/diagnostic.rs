//! The text a failed expectation reports.
use vstd::prelude::*;

verus! {

/// What `{:?}` renders for a string: its text in double quotes, with escapes.
pub uninterp spec fn debug_quoted(s: Seq<char>) -> Seq<char>;

/// Relies on `<str as Debug>::fmt`, through `format!("{:?}")`: the rendering
/// depends on the characters alone.
#[verifier::external_body]
fn quote_debug(s: &str) -> (r: String)
    ensures
        r@ == debug_quoted(s@),
{
    format!("{:?}", s)
}

/// Relies on `E::fmt` of `Debug`, through `format!("{:?}")`. Nothing is stated
/// of the text: it depends on how `E` implements the trait.
#[verifier::external_body]
pub(crate) fn render_debug<E: std::fmt::Debug>(e: &E) -> String {
    format!("{:?}", e)
}

/// Relies on `AsRef::<str>::as_ref`, to read the text of a produced message.
#[verifier::external_body]
pub(crate) fn text_of<S: AsRef<str>>(s: &S) -> &str {
    s.as_ref()
}

/// The report of an absent value: the message alone, in its debug rendering.
pub fn absent_message(message: &str) -> (r: String)
    ensures
        r@ == debug_quoted(message@),
{
    quote_debug(message)
}

/// The report of a failure value: the message, `": "`, then the error's
/// debug rendering.
pub fn failure_message(message: &str, rendered_error: &str) -> (r: String)
    ensures
        r@ == message@ + ": "@ + rendered_error@,
{
    let mut r = message.to_owned();
    r.append(": ");
    r.append(rendered_error);
    r
}

} // verus!
