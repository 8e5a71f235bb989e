//! Positional template interpolation for diagnostic messages.
//!
//! A template is an ordinary string in which each `{}` placeholder, scanned
//! left to right, is replaced by the next unused argument. Characters other
//! than a placeholder pair are kept as they are; a placeholder that no
//! argument is left for stays literal, and arguments beyond the last
//! placeholder are ignored.

use vstd::prelude::*;
use vstd::string::StrSliceExecFns;
use vstd::string::StringExecFns;

verus! {

/// The views of a sequence of argument strings, as character sequences.
pub open spec fn views_of(args: Seq<String>) -> Seq<Seq<char>> {
    args.map_values(|s: String| s@)
}

/// What interpolation means: each `{}` placeholder, scanned left to right, is
/// replaced by the next unused argument; every other character, and every
/// placeholder for which no argument is left, is kept as it is.
pub open spec fn interpolated(t: Seq<char>, args: Seq<Seq<char>>) -> Seq<char>
    decreases t.len(),
{
    if t.len() >= 2 && t[0] == '{' && t[1] == '}' && args.len() > 0 {
        args[0] + interpolated(t.skip(2), args.skip(1))
    } else if t.len() > 0 {
        seq![t[0]] + interpolated(t.skip(1), args)
    } else {
        Seq::<char>::empty()
    }
}

/// Substitute the arguments into the template's placeholders.
pub fn interpolate(template: &str, args: &Vec<String>) -> (r: String)
    ensures
        r@ == interpolated(template@, views_of(args@)),
{
    let ghost t = template@;
    let ghost avs = views_of(args@);
    let n = template.unicode_len();
    let mut out = String::new();
    let mut i: usize = 0;
    let mut k: usize = 0;
    proof {
        assert(t.skip(0) =~= t);
        assert(avs.skip(0) =~= avs);
        assert(out@ + interpolated(t, avs) =~= interpolated(t, avs));
    }
    while i < n
        invariant
            i <= n,
            k <= args@.len(),
            n == t.len(),
            t == template@,
            avs == views_of(args@),
            out@ + interpolated(t.skip(i as int), avs.skip(k as int)) == interpolated(t, avs),
        decreases n - i,
    {
        if i + 1 < n && template.get_char(i) == '{' && template.get_char(i + 1) == '}'
            && k < args.len() {
            let arg = args[k].as_str();
            proof {
                assert(t.skip(i as int).skip(2) =~= t.skip(i + 2));
                assert(avs.skip(k as int).skip(1) =~= avs.skip(k + 1));
                assert(interpolated(t.skip(i as int), avs.skip(k as int))
                    == avs[k as int] + interpolated(t.skip(i + 2), avs.skip(k + 1)));
                assert(out@ + (avs[k as int] + interpolated(t.skip(i + 2), avs.skip(k + 1)))
                    =~= (out@ + avs[k as int]) + interpolated(t.skip(i + 2), avs.skip(k + 1)));
            }
            out.append(arg);
            i = i + 2;
            k = k + 1;
        } else {
            let piece = template.substring_char(i, i + 1);
            proof {
                assert(piece@ =~= seq![t[i as int]]);
                assert(t.skip(i as int).skip(1) =~= t.skip(i + 1));
                assert(interpolated(t.skip(i as int), avs.skip(k as int))
                    == seq![t[i as int]] + interpolated(t.skip(i + 1), avs.skip(k as int)));
                assert(out@ + (seq![t[i as int]] + interpolated(t.skip(i + 1), avs.skip(k as int)))
                    =~= (out@ + seq![t[i as int]]) + interpolated(t.skip(i + 1), avs.skip(k as int)));
            }
            out.append(piece);
            i = i + 1;
        }
    }
    proof {
        assert(t.skip(n as int) =~= Seq::<char>::empty());
        assert(out@ + Seq::<char>::empty() =~= out@);
    }
    out
}

} // verus!
