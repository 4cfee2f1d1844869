//! The text printed for results when JSON output is not asked for.
use vstd::prelude::*;
use crate::model::TextView;
use crate::text::push_str;

verus! {

/// The text printed for one value: its text form on a line of its own.
pub fn render_one<T: TextView>(value: &T) -> (r: String)
    requires
        value.renderable(),
    ensures
        r@ == value.text_spec() + "\n"@,
{
    let mut s = value.to_text();
    push_str(&mut s, "\n");
    s
}

/// The lines of `values`, each text form followed by a newline.
pub open spec fn lines_spec<T: TextView>(values: Seq<T>) -> Seq<char>
    decreases values.len(),
{
    if values.len() == 0 {
        Seq::empty()
    } else {
        lines_spec(values.drop_last()) + values.last().text_spec() + "\n"@
    }
}

/// The text printed for a list: one line per value, in order.
pub fn render_list<T: TextView>(values: &Vec<T>) -> (r: String)
    requires
        forall|i: int| 0 <= i < values@.len() ==> (#[trigger] values@[i]).renderable(),
    ensures
        r@ == lines_spec(values@),
{
    let mut s = String::new();
    let mut i: usize = 0;
    while i < values.len()
        invariant
            i <= values@.len(),
            forall|j: int| 0 <= j < values@.len() ==> (#[trigger] values@[j]).renderable(),
            s@ == lines_spec(values@.take(i as int)),
        decreases values@.len() - i,
    {
        let line = values[i].to_text();
        push_str(&mut s, line.as_str());
        push_str(&mut s, "\n");
        assert(values@.take(i + 1).drop_last() =~= values@.take(i as int));
        i = i + 1;
    }
    assert(values@.take(values@.len() as int) =~= values@);
    s
}

/// The text printed for a created or changed value: the label, a colon and
/// the value's text form, on a line of its own.
pub fn render_created<T: TextView>(label: &str, value: &T) -> (r: String)
    requires
        value.renderable(),
    ensures
        r@ == label@ + ": "@ + value.text_spec() + "\n"@,
{
    let mut s = String::from_str(label);
    push_str(&mut s, ": ");
    let text = value.to_text();
    push_str(&mut s, text.as_str());
    push_str(&mut s, "\n");
    s
}

/// The text printed after a repository was deleted.
pub fn render_deleted(slug: &str) -> (r: String)
    ensures
        r@ == "Deleted: "@ + slug@ + "\n"@,
{
    let mut s = String::from_str("Deleted: ");
    push_str(&mut s, slug);
    push_str(&mut s, "\n");
    s
}

/// The text printed when a deletion was not confirmed.
pub fn render_aborted() -> (r: String)
    ensures
        r@ == "Aborted.\n"@,
{
    String::from_str("Aborted.\n")
}

/// The text printed for build logs: the logs on lines of their own.
pub fn render_logs(logs: &str) -> (r: String)
    ensures
        r@ == logs@ + "\n"@,
{
    let mut s = String::from_str(logs);
    push_str(&mut s, "\n");
    s
}

} // verus!
