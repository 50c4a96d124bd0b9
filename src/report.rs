use vstd::prelude::*;

verus! {

/// The line fragment by which an `xset -q` report shows Caps Lock on:
/// the bytes of `"Caps Lock:   on"`.
pub open spec fn caps_on_marker() -> Seq<u8> {
    seq![67u8, 97, 112, 115, 32, 76, 111, 99, 107, 58, 32, 32, 32, 111, 110]
}

/// `needle` stands in `hay` starting at position `i`.
pub open spec fn occurs_at(hay: Seq<u8>, needle: Seq<u8>, i: int) -> bool {
    0 <= i && i + needle.len() <= hay.len() && hay.subrange(i, i + needle.len()) == needle
}

/// `needle` stands somewhere in `hay`.
pub open spec fn contains_bytes(hay: Seq<u8>, needle: Seq<u8>) -> bool {
    exists|i: int| occurs_at(hay, needle, i)
}

fn contains(hay: &[u8], needle: &[u8]) -> (r: bool)
    ensures
        r == contains_bytes(hay@, needle@),
{
    let n = needle.len();
    let h = hay.len();
    if n > h {
        return false;
    }
    if n == 0 {
        assert(hay@.subrange(0, 0) =~= needle@);
        assert(occurs_at(hay@, needle@, 0));
        return true;
    }
    let last = h - n;
    let mut i: usize = 0;
    while i <= last
        invariant
            n == needle@.len(),
            0 < n <= h,
            h == hay@.len(),
            last == h - n,
            forall|k: int| 0 <= k < i ==> !occurs_at(hay@, needle@, k),
        decreases last + 1 - i,
    {
        let mut j: usize = 0;
        while j < n
            invariant
                n == needle@.len(),
                n <= h,
                h == hay@.len(),
                i <= last,
                last == h - n,
                j <= n,
                forall|t: int| 0 <= t < j ==> hay@[i + t] == needle@[t],
            ensures
                j <= n,
                j == n || hay@[i + j] != needle@[j as int],
                forall|t: int| 0 <= t < j ==> hay@[i + t] == needle@[t],
            decreases n - j,
        {
            if hay[i + j] != needle[j] {
                break;
            }
            j = j + 1;
        }
        if j == n {
            assert(hay@.subrange(i as int, i + n) =~= needle@);
            assert(occurs_at(hay@, needle@, i as int));
            return true;
        }
        assert(hay@.subrange(i as int, i + n)[j as int] != needle@[j as int]);
        i = i + 1;
    }
    assert forall|k: int| !occurs_at(hay@, needle@, k) by {
        if 0 <= k && k + n <= hay@.len() {
            assert(k < i);
        }
    }
    false
}

/// Whether an `xset -q` report shows Caps Lock on.
pub fn caps_lock_on_in_report(report: &[u8]) -> (r: bool)
    ensures
        r == contains_bytes(report@, caps_on_marker()),
{
    let marker: Vec<u8> = vec![67u8, 97, 112, 115, 32, 76, 111, 99, 107, 58, 32, 32, 32, 111, 110];
    assert(marker@ =~= caps_on_marker());
    contains(report, marker.as_slice())
}

} // verus!
