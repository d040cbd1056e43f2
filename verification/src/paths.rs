//! The device-interface paths of the bus.
//!
//! Windows lists every present interface of a device class in one buffer of
//! UTF-16 units: each path ends with a zero unit, and the list ends with an
//! empty path. Every path is handed on with its zero terminator so that it can
//! be opened as it stands.

use vstd::prelude::*;

verus! {

/// The configuration-manager status of a call that succeeded.
pub const CR_SUCCESS: u32 = 0;

/// Splits `buf` at its zero units: the finished paths so far, each with its
/// zero terminator, and the units of the path still being read.
pub open spec fn scan_paths(buf: Seq<u16>) -> (Seq<Seq<u16>>, Seq<u16>)
    decreases buf.len(),
{
    if buf.len() == 0 {
        (Seq::empty(), Seq::empty())
    } else {
        let (done, cur) = scan_paths(buf.drop_last());
        if buf.last() == 0 {
            if cur.len() == 0 {
                (done, cur)
            } else {
                (done.push(cur.push(0)), Seq::empty())
            }
        } else {
            (done, cur.push(buf.last()))
        }
    }
}

/// The paths in `buf`: its maximal runs of non-zero units, in order, each
/// followed by one zero terminator.
pub open spec fn interface_paths(buf: Seq<u16>) -> Seq<Seq<u16>> {
    let (done, cur) = scan_paths(buf);
    if cur.len() == 0 {
        done
    } else {
        done.push(cur.push(0))
    }
}

/// A path as it can be opened: at least one unit, then a zero terminator, and no
/// other zero.
pub open spec fn is_terminated_path(p: Seq<u16>) -> bool {
    &&& p.len() >= 2
    &&& p.last() == 0
    &&& forall|j: int| 0 <= j < p.len() - 1 ==> p[j] != 0
}

pub open spec fn nonzero(c: u16) -> bool {
    c != 0
}

/// The units of the paths without their terminators, one path after the other.
pub open spec fn path_units(paths: Seq<Seq<u16>>) -> Seq<u16> {
    paths.map_values(|p: Seq<u16>| p.drop_last()).flatten()
}

/// A copy of a path.
pub fn copy_path(p: &Vec<u16>) -> (r: Vec<u16>)
    ensures
        r@ == p@,
{
    let r = p.clone();
    assert(r@ =~= p@);
    r
}

/// How long a buffer to ask for, given the outcome of the size query: the
/// list is only read when the query succeeded and reported a non-empty list.
pub fn interface_list_len(status: u32, len: u32) -> (r: Option<usize>)
    ensures
        r == (if status == CR_SUCCESS && len != 0 {
            Some(len as usize)
        } else {
            None
        }),
{
    if status == CR_SUCCESS && len != 0 {
        Some(len as usize)
    } else {
        None
    }
}

/// The bus interface paths in the list `buffer` that the configuration manager
/// returned with `status`; none when the call failed.
pub fn device_interface_paths(status: u32, buffer: &Vec<u16>) -> (r: Vec<Vec<u16>>)
    ensures
        r@.map_values(|p: Vec<u16>| p@) == (if status == CR_SUCCESS {
            interface_paths(buffer@)
        } else {
            Seq::empty()
        }),
{
    let mut out: Vec<Vec<u16>> = Vec::new();
    if status != CR_SUCCESS {
        assert(out@.map_values(|p: Vec<u16>| p@) =~= Seq::empty());
        return out;
    }
    let mut cur: Vec<u16> = Vec::new();
    let n = buffer.len();
    let mut i: usize = 0;
    assert(buffer@.take(0) =~= Seq::empty());
    while i < n
        invariant
            n == buffer@.len(),
            i <= n,
            out@.map_values(|p: Vec<u16>| p@) == scan_paths(buffer@.take(i as int)).0,
            cur@ == scan_paths(buffer@.take(i as int)).1,
        decreases n - i,
    {
        let c = buffer[i];
        let ghost before = buffer@.take(i as int);
        assert(buffer@.take(i + 1).drop_last() =~= before);
        assert(buffer@.take(i + 1).last() == c);
        if c == 0 {
            if cur.len() > 0 {
                cur.push(0);
                let finished = cur;
                out.push(finished);
                cur = Vec::new();
                assert(out@.map_values(|p: Vec<u16>| p@) =~= scan_paths(before).0.push(
                    scan_paths(before).1.push(0),
                ));
            }
        } else {
            cur.push(c);
        }
        i = i + 1;
    }
    assert(buffer@.take(n as int) =~= buffer@);
    if cur.len() > 0 {
        cur.push(0);
        out.push(cur);
        assert(out@.map_values(|p: Vec<u16>| p@) =~= interface_paths(buffer@));
    }
    out
}

proof fn lemma_scan_paths(buf: Seq<u16>)
    ensures
        forall|k: int|
            0 <= k < scan_paths(buf).0.len() ==> is_terminated_path(#[trigger] scan_paths(buf).0[k]),
        forall|j: int| 0 <= j < scan_paths(buf).1.len() ==> scan_paths(buf).1[j] != 0,
        path_units(scan_paths(buf).0) + scan_paths(buf).1 == buf.filter(|c: u16| nonzero(c)),
    decreases buf.len(),
{
    reveal_with_fuel(Seq::filter, 1);
    if buf.len() > 0 {
        let prev = buf.drop_last();
        lemma_scan_paths(prev);
        let (done, cur) = scan_paths(prev);
        let f = |p: Seq<u16>| p.drop_last();
        if buf.last() == 0 {
            if cur.len() > 0 {
                let p = cur.push(0);
                assert(p.drop_last() =~= cur);
                assert(done.push(p).map_values(f) =~= done.map_values(f).push(cur));
                done.map_values(f).lemma_flatten_push(cur);
                assert(path_units(done.push(p)) + Seq::<u16>::empty() =~= path_units(done) + cur);
            }
        } else {
            assert(path_units(done) + cur.push(buf.last()) =~= (path_units(done) + cur).push(
                buf.last(),
            ));
        }
    }
}

proof fn lemma_scan_zero_free(p: Seq<u16>)
    requires
        forall|j: int| 0 <= j < p.len() ==> p[j] != 0,
    ensures
        scan_paths(p) == (Seq::<Seq<u16>>::empty(), p),
    decreases p.len(),
{
    if p.len() > 0 {
        lemma_scan_zero_free(p.drop_last());
        assert(p.drop_last().push(p.last()) =~= p);
    }
}

proof fn lemma_scan_after_terminator(a: Seq<u16>, b: Seq<u16>)
    requires
        scan_paths(a).1.len() == 0,
    ensures
        scan_paths(a + b) == (scan_paths(a).0 + scan_paths(b).0, scan_paths(b).1),
    decreases b.len(),
{
    if b.len() == 0 {
        assert(a + b =~= a);
        assert(scan_paths(a).0 + Seq::<Seq<u16>>::empty() =~= scan_paths(a).0);
    } else {
        let b0 = b.drop_last();
        assert((a + b).drop_last() =~= a + b0);
        assert((a + b).last() == b.last());
        lemma_scan_after_terminator(a, b0);
        let (d, c) = scan_paths(b0);
        if b.last() == 0 && c.len() > 0 {
            assert(scan_paths(a).0 + d.push(c.push(0)) =~= (scan_paths(a).0 + d).push(c.push(0)));
        }
    }
}

/// Paths end only at zero units and a path holds a whole run of non-zero units:
/// a buffer that is one run of non-zero units is that one path; a zero unit
/// in front of a list adds nothing; and a run followed by a zero unit is the
/// first path of whatever the list holds after it.
pub proof fn lemma_paths_are_runs(p: Seq<u16>, rest: Seq<u16>)
    requires
        p.len() > 0,
        forall|j: int| 0 <= j < p.len() ==> p[j] != 0,
    ensures
        interface_paths(Seq::empty()) == Seq::<Seq<u16>>::empty(),
        interface_paths(p) == seq![p.push(0)],
        interface_paths(seq![0u16] + rest) == interface_paths(rest),
        interface_paths(p.push(0) + rest) == seq![p.push(0)] + interface_paths(rest),
        interface_paths(p + seq![0u16, 0u16]) == seq![p.push(0)],
{
    lemma_scan_zero_free(p);
    let z = seq![0u16];
    assert(z.drop_last() =~= Seq::<u16>::empty());
    assert(scan_paths(Seq::<u16>::empty()) == (Seq::<Seq<u16>>::empty(), Seq::<u16>::empty()));
    assert(scan_paths(z) == (Seq::<Seq<u16>>::empty(), Seq::<u16>::empty()));
    lemma_scan_after_terminator(z, rest);
    assert(Seq::<Seq<u16>>::empty() + scan_paths(rest).0 =~= scan_paths(rest).0);
    let q = p.push(0);
    assert(q.drop_last() =~= p);
    assert(scan_paths(q) == (seq![p.push(0)], Seq::<u16>::empty()));
    lemma_scan_after_terminator(q, rest);
    let (d, c) = scan_paths(rest);
    if c.len() > 0 {
        assert(seq![p.push(0)] + d.push(c.push(0)) =~= (seq![p.push(0)] + d).push(c.push(0)));
    }
    lemma_scan_after_terminator(q, z);
    assert(p + seq![0u16, 0u16] =~= q + z);
    assert(seq![p.push(0)] + Seq::<Seq<u16>>::empty() =~= seq![p.push(0)]);
}

/// Every path taken from a buffer is non-empty and ends with its only zero, and
/// the paths hold all the non-zero units of the buffer, in order, and nothing else.
pub proof fn lemma_interface_paths(buf: Seq<u16>)
    ensures
        forall|k: int|
            0 <= k < interface_paths(buf).len() ==> is_terminated_path(
                #[trigger] interface_paths(buf)[k],
            ),
        path_units(interface_paths(buf)) == buf.filter(|c: u16| nonzero(c)),
{
    lemma_scan_paths(buf);
    let (done, cur) = scan_paths(buf);
    if cur.len() > 0 {
        let p = cur.push(0);
        let f = |p: Seq<u16>| p.drop_last();
        assert(p.drop_last() =~= cur);
        assert(done.push(p).map_values(f) =~= done.map_values(f).push(cur));
        done.map_values(f).lemma_flatten_push(cur);
    } else {
        assert(path_units(done) + cur =~= path_units(done));
    }
}

} // verus!
