//! Pure text rendering of labeled values.
//!
//! The presenter turns an ordered sequence of `(label, value)` pairs into
//! lines of the form `label: value`.  It makes no decisions and performs no
//! output; the driver around the library prints (and colors) the text.

use vstd::prelude::*;

verus! {

/// One rendered line: the label, a separating colon and space, the value,
/// and a terminating newline.
pub open spec fn labeled_line(label: Seq<char>, value: Seq<char>) -> Seq<char> {
    label + seq![':', ' '] + value + seq!['\n']
}

/// The rendering of an ordered sequence of labeled values: one line each,
/// in order.
pub open spec fn rendered_lines(pairs: Seq<(Seq<char>, Seq<char>)>) -> Seq<char>
    decreases pairs.len(),
{
    if pairs.len() == 0 {
        Seq::empty()
    } else {
        rendered_lines(pairs.drop_last()) + labeled_line(pairs.last().0, pairs.last().1)
    }
}

/// View of a list of labeled values as a sequence of character pairs.
pub open spec fn pairs_view(pairs: Seq<(String, String)>) -> Seq<(Seq<char>, Seq<char>)> {
    pairs.map_values(|p: (String, String)| (p.0@, p.1@))
}

/// Formats one labeled value as `label: value` with a trailing newline.
pub fn format_label_and_value(label: &str, value: &String) -> (r: String)
    ensures
        r@ == labeled_line(label@, value@),
{
    let mut out = String::from_str(label);
    out.append(": ");
    out.append(value.as_str());
    out.append("\n");
    proof {
        reveal_strlit(": ");
        reveal_strlit("\n");
        assert(out@ =~= labeled_line(label@, value@));
    }
    out
}

/// Renders every labeled value as its own line, in the order given.
pub fn render(pairs: &Vec<(String, String)>) -> (r: String)
    ensures
        r@ == rendered_lines(pairs_view(pairs@)),
{
    let mut out = String::new();
    let n = pairs.len();
    let mut i: usize = 0;
    while i < n
        invariant
            0 <= i <= n,
            n == pairs@.len(),
            out@ == rendered_lines(pairs_view(pairs@).take(i as int)),
        decreases n - i,
    {
        let line = format_label_and_value(pairs[i].0.as_str(), &pairs[i].1);
        out.append(line.as_str());
        proof {
            let pv = pairs_view(pairs@);
            assert(pv.take(i as int + 1).drop_last() =~= pv.take(i as int));
            assert(pv.take(i as int + 1).last() == pv[i as int]);
        }
        i = i + 1;
    }
    proof {
        assert(pairs_view(pairs@).take(n as int) =~= pairs_view(pairs@));
    }
    out
}

} // verus!
