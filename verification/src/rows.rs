//! The row builder: turns a record's field group into the display
//! lines that are currently visible, wrapping at a maximum width with
//! a whitespace-preserving greedy wrap and windowing by the scroll
//! offset and the viewport height.

use vstd::prelude::*;
use vstd::string::*;

use crate::records::{project_group_spec, DetailLevel};
use crate::strutil::{chars_of, views_of};

verus! {

/// The greatest cut position at or below `k` that ends right after a
/// space of `s`; zero when no space lies below `k`.
pub open spec fn wrap_cut(s: Seq<char>, k: nat) -> nat
    decreases k,
{
    if k == 0 {
        0
    } else if k - 1 < s.len() && s[k - 1] == ' ' {
        k
    } else {
        wrap_cut(s, (k - 1) as nat)
    }
}

proof fn lemma_wrap_cut_le(s: Seq<char>, k: nat)
    ensures
        wrap_cut(s, k) <= k,
    decreases k,
{
    if k > 0 && !(k - 1 < s.len() && s[k - 1] == ' ') {
        lemma_wrap_cut_le(s, (k - 1) as nat);
    }
}

/// The greedy wrap of `s` at width `w`: each line holds at most `w`
/// characters, broken after the last space that fits, or hard at `w`
/// when no space fits; spaces are preserved. Width zero disables
/// wrapping.
pub open spec fn wrap_seq(s: Seq<char>, w: nat) -> Seq<Seq<char>>
    decreases s.len(),
    via wrap_seq_decreases
{
    if w == 0 || s.len() <= w {
        seq![s]
    } else {
        let c0 = wrap_cut(s, w);
        let cut = if c0 == 0 {
            w
        } else {
            c0
        };
        seq![s.subrange(0, cut as int)] + wrap_seq(s.subrange(cut as int, s.len() as int), w)
    }
}

#[via_fn]
proof fn wrap_seq_decreases(s: Seq<char>, w: nat) {
    if !(w == 0 || s.len() <= w) {
        lemma_wrap_cut_le(s, w);
    }
}

/// Wraps one line at width `w`.
pub fn wrap_line(s: &str, w: u16) -> (r: Vec<String>)
    ensures
        views_of(r@) == wrap_seq(s@, w as nat),
{
    let mut r: Vec<String> = Vec::new();
    let n = s.unicode_len();
    let mut start: usize = 0;
    if w == 0 || n <= w as usize {
        r.push(s.to_owned());
        proof {
            assert(views_of(r@) =~= wrap_seq(s@, w as nat));
        }
        return r;
    }
    let v = chars_of(s);
    proof {
        assert(s@.subrange(0, n as int) =~= s@);
        assert(views_of(r@) =~= Seq::<Seq<char>>::empty());
        assert(views_of(r@) + wrap_seq(s@, w as nat) =~= wrap_seq(s@, w as nat));
    }
    while n - start > w as usize
        invariant
            n == s@.len(),
            v@ == s@,
            w > 0,
            start <= n,
            wrap_seq(s@, w as nat) =~= views_of(r@) + wrap_seq(
                s@.subrange(start as int, n as int),
                w as nat,
            ),
        decreases n - start,
    {
        let ghost rest = s@.subrange(start as int, n as int);
        // find the last space within the first w characters of the rest
        let mut cut: usize = 0;
        let mut p: usize = 0;
        while p < w as usize
            invariant
                v@ == s@,
                n == s@.len(),
                start + w < n,
                p <= w,
                rest == s@.subrange(start as int, n as int),
                cut == wrap_cut(rest, p as nat),
            decreases w - p,
        {
            proof {
                assert(rest[p as int] == s@[start + p]);
            }
            if v[start + p] == ' ' {
                cut = p + 1;
            }
            p += 1;
        }
        proof {
            assert(cut == wrap_cut(rest, w as nat));
        }
        let cut_eff: usize = if cut == 0 {
            w as usize
        } else {
            cut
        };
        proof {
            lemma_wrap_cut_le(rest, w as nat);
            assert(cut_eff <= w);
            assert(wrap_seq(rest, w as nat) == seq![rest.subrange(0, cut_eff as int)] + wrap_seq(
                rest.subrange(cut_eff as int, rest.len() as int),
                w as nat,
            ));
        }
        let chunk = s.substring_char(start, start + cut_eff);
        r.push(chunk.to_owned());
        proof {
            assert(r@.last()@ == rest.subrange(0, cut_eff as int));
            assert(s@.subrange((start + cut_eff) as int, n as int) =~= rest.subrange(
                cut_eff as int,
                rest.len() as int,
            ));
            assert(views_of(r@) =~= views_of(r@.drop_last()) + seq![
                rest.subrange(0, cut_eff as int),
            ]);
            assert(wrap_seq(s@, w as nat) =~= views_of(r@) + wrap_seq(
                s@.subrange((start + cut_eff) as int, n as int),
                w as nat,
            ));
        }
        start += cut_eff;
    }
    let tail = s.substring_char(start, n);
    r.push(tail.to_owned());
    proof {
        let rest = s@.subrange(start as int, n as int);
        assert(rest.len() <= w as nat);
        assert(wrap_seq(rest, w as nat) == seq![rest]);
        assert(r@.last()@ == rest);
        assert(views_of(r@) =~= views_of(r@.drop_last()) + seq![rest]);
        assert(views_of(r@) =~= wrap_seq(s@, w as nat));
    }
    r
}

/// The concatenation of a sequence of line blocks.
pub open spec fn flat_of(parts: Seq<Seq<Seq<char>>>) -> Seq<Seq<char>>
    decreases parts.len(),
{
    if parts.len() == 0 {
        Seq::empty()
    } else {
        parts[0] + flat_of(parts.drop_first())
    }
}

proof fn lemma_flat_snoc(parts: Seq<Seq<Seq<char>>>, x: Seq<Seq<char>>)
    ensures
        flat_of(parts.push(x)) == flat_of(parts) + x,
    decreases parts.len(),
{
    if parts.len() == 0 {
        assert(parts.push(x)[0] == x);
        assert(parts.push(x).drop_first() =~= Seq::<Seq<Seq<char>>>::empty());
        assert(flat_of(parts.push(x)) == x + flat_of(Seq::<Seq<Seq<char>>>::empty()));
        assert(flat_of(Seq::<Seq<Seq<char>>>::empty()) == Seq::<Seq<char>>::empty());
        assert(x + Seq::<Seq<char>>::empty() =~= x);
        assert(flat_of(parts) + x =~= x);
    } else {
        lemma_flat_snoc(parts.drop_first(), x);
        assert(parts.push(x).drop_first() =~= parts.drop_first().push(x));
        assert(parts.push(x)[0] == parts[0]);
        assert(flat_of(parts.push(x)) == parts[0] + flat_of(parts.drop_first().push(x)));
        assert(parts[0] + (flat_of(parts.drop_first()) + x) =~= (parts[0] + flat_of(
            parts.drop_first(),
        )) + x);
    }
}

/// All logical lines of a projected field group: one line per field,
/// or the wrapped lines of each field when a width is given.
pub open spec fn flat_lines_spec(
    group: Seq<Seq<char>>,
    d: DetailLevel,
    minimized: bool,
    width: Option<u16>,
) -> Seq<Seq<char>> {
    let proj = project_group_spec(group, d, minimized);
    match width {
        Option::None => proj,
        Option::Some(w) => flat_of(proj.map_values(|f: Seq<char>| wrap_seq(f, w as nat))),
    }
}

/// The window of `lines` that is visible at scroll offset `scroll`
/// with `height` rows: the scroll offset is first clamped so that at
/// least one line stays visible.
pub open spec fn window_spec(lines: Seq<Seq<char>>, scroll: nat, height: nat) -> Seq<Seq<char>> {
    if lines.len() == 0 {
        lines
    } else {
        let sc = if scroll > lines.len() - 1 {
            (lines.len() - 1) as nat
        } else {
            scroll
        };
        let hi = if sc + height > lines.len() {
            lines.len() as nat
        } else {
            (sc + height) as nat
        };
        lines.subrange(sc as int, hi as int)
    }
}

/// The greatest legal scroll offset for a block of `line_count` lines.
pub open spec fn max_scroll_of(line_count: nat) -> nat {
    if line_count == 0 {
        0
    } else {
        (line_count - 1) as nat
    }
}

/// Builds all logical lines of a field group at the given detail
/// level, minimized policy and optional width.
pub fn flat_lines(group: &Vec<String>, d: DetailLevel, minimized: bool, width: Option<u16>) -> (r:
    Vec<String>)
    ensures
        views_of(r@) == flat_lines_spec(views_of(group@), d, minimized, width),
{
    let proj = crate::records::project_group(group, d, minimized);
    match width {
        Option::None => proj,
        Option::Some(w) => {
            let ghost pv = views_of(proj@);
            let ghost mapped = pv.map_values(|f: Seq<char>| wrap_seq(f, w as nat));
            let mut r: Vec<String> = Vec::new();
            let mut i: usize = 0;
            while i < proj.len()
                invariant
                    i <= proj@.len(),
                    pv == views_of(proj@),
                    mapped == pv.map_values(|f: Seq<char>| wrap_seq(f, w as nat)),
                    views_of(r@) =~= flat_of(mapped.take(i as int)),
                decreases proj@.len() - i,
            {
                let mut lines = wrap_line(proj[i].as_str(), w);
                let mut j: usize = 0;
                let ghost r_before = r@;
                while j < lines.len()
                    invariant
                        j <= lines@.len(),
                        views_of(lines@) == wrap_seq(proj@[i as int]@, w as nat),
                        i < proj@.len(),
                        views_of(r@) =~= views_of(r_before) + views_of(lines@).take(j as int),
                    decreases lines@.len() - j,
                {
                    let ghost prev = r@;
                    r.push(lines[j].clone());
                    proof {
                        assert(r@ == prev.push(r@.last()));
                        crate::strutil::lemma_views_push(prev, r@.last());
                        crate::strutil::lemma_views_index(lines@, j as int);
                        assert(views_of(lines@).take(j + 1) =~= views_of(lines@).take(
                            j as int,
                        ).push(views_of(lines@)[j as int]));
                        assert(views_of(r@) =~= views_of(r_before) + views_of(lines@).take(
                            j + 1,
                        ));
                    }
                    j += 1;
                }
                proof {
                    assert(views_of(lines@).take(lines@.len() as int) =~= views_of(lines@));
                    assert(mapped[i as int] == wrap_seq(pv[i as int], w as nat));
                    assert(pv[i as int] == proj@[i as int]@);
                    lemma_flat_snoc(mapped.take(i as int), mapped[i as int]);
                    assert(mapped.take(i + 1) =~= mapped.take(i as int).push(mapped[i as int]));
                    assert(views_of(r@) =~= flat_of(mapped.take(i + 1)));
                }
                i += 1;
            }
            proof {
                assert(mapped.take(proj@.len() as int) =~= mapped);
                assert(views_of(r@) =~= flat_lines_spec(views_of(group@), d, minimized, width));
            }
            r
        },
    }
}

/// Cuts the visible window out of a block of lines.
pub fn window_lines(lines: Vec<String>, scroll: usize, height: u16) -> (r: Vec<String>)
    ensures
        views_of(r@) == window_spec(views_of(lines@), scroll as nat, height as nat),
{
    if lines.len() == 0 {
        return lines;
    }
    let sc: usize = if scroll > lines.len() - 1 {
        lines.len() - 1
    } else {
        scroll
    };
    let hi: usize = if height as usize > lines.len() - sc {
        lines.len()
    } else {
        sc + height as usize
    };
    let mut r: Vec<String> = Vec::new();
    let mut i: usize = sc;
    while i < hi
        invariant
            sc <= i <= hi <= lines@.len(),
            views_of(r@) =~= views_of(lines@).subrange(sc as int, i as int),
        decreases hi - i,
    {
        let ghost prev = r@;
        r.push(lines[i].clone());
        proof {
            assert(r@ == prev.push(r@.last()));
            crate::strutil::lemma_views_push(prev, r@.last());
            crate::strutil::lemma_views_index(lines@, i as int);
            assert(views_of(r@) =~= views_of(lines@).subrange(sc as int, i + 1));
        }
        i += 1;
    }
    proof {
        assert(views_of(r@) =~= window_spec(views_of(lines@), scroll as nat, height as nat));
    }
    r
}

/// The number of lines a record's group has at the given projection
/// parameters; its predecessor is the greatest legal scroll offset.
pub fn line_count(group: &Vec<String>, d: DetailLevel, minimized: bool, width: Option<u16>) -> (r:
    usize)
    ensures
        r == flat_lines_spec(views_of(group@), d, minimized, width).len(),
{
    flat_lines(group, d, minimized, width).len()
}

/// The height a table row needs: the larger visible line count of the
/// two groups, and at least one.
pub fn row_height(primary_count: usize, secondary_count: usize) -> (r: usize)
    ensures
        r == if primary_count >= secondary_count {
            if primary_count >= 1 {
                primary_count as int
            } else {
                1
            }
        } else {
            if secondary_count >= 1 {
                secondary_count as int
            } else {
                1
            }
        },
{
    let m = if primary_count >= secondary_count {
        primary_count
    } else {
        secondary_count
    };
    if m >= 1 {
        m
    } else {
        1
    }
}

} // verus!
