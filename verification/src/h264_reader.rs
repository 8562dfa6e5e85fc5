//! Splitting of an H.264 byte stream into NAL units.
use vstd::prelude::*;

verus! {

/// Whether the four-byte start code `00 00 00 01` stands at position `i`.
pub open spec fn is_start_code(s: Seq<u8>, i: int) -> bool {
    &&& 0 <= i
    &&& i + 4 <= s.len()
    &&& s[i] == 0 && s[i + 1] == 0 && s[i + 2] == 0 && s[i + 3] == 1
}

/// Whether a unit ends before position `i`: a start code stands there and it is
/// not the one that opens the stream.
pub open spec fn is_cut(s: Seq<u8>, i: int) -> bool {
    0 < i && is_start_code(s, i)
}

/// The first cut at or after `from`, or the length of `s` where there is none.
pub open spec fn next_cut(s: Seq<u8>, from: int) -> int
    decreases s.len() - from,
{
    if from >= s.len() {
        s.len() as int
    } else if is_cut(s, from) {
        from
    } else {
        next_cut(s, from + 1)
    }
}

/// The complete units of `s`, those that a later start code closes.
pub open spec fn complete_nals(s: Seq<u8>) -> Seq<Seq<u8>>
    decreases s.len(),
{
    let p = next_cut(s, 0);
    if 0 < p < s.len() {
        seq![s.take(p)] + complete_nals(s.skip(p))
    } else {
        seq![]
    }
}

/// The unit at the end of `s` that no start code closes yet.
pub open spec fn open_nal(s: Seq<u8>) -> Seq<u8>
    decreases s.len(),
{
    let p = next_cut(s, 0);
    if 0 < p < s.len() {
        open_nal(s.skip(p))
    } else {
        s
    }
}

/// All bytes of the units, in order.
pub open spec fn joined(units: Seq<Seq<u8>>) -> Seq<u8>
    decreases units.len(),
{
    if units.len() == 0 {
        seq![]
    } else {
        units[0] + joined(units.skip(1))
    }
}

/// The contents of each vector.
pub open spec fn contents(units: Seq<Vec<u8>>) -> Seq<Seq<u8>> {
    units.map_values(|u: Vec<u8>| u@)
}

proof fn lemma_next_cut(s: Seq<u8>, from: int)
    requires
        0 <= from,
    ensures
        from <= s.len() ==> from <= next_cut(s, from) <= s.len(),
        next_cut(s, from) < s.len() ==> is_cut(s, next_cut(s, from)),
        forall|i: int| from <= i < next_cut(s, from) ==> !is_cut(s, i),
    decreases s.len() - from,
{
    if from < s.len() && !is_cut(s, from) {
        lemma_next_cut(s, from + 1);
    }
}

proof fn lemma_next_cut_is(s: Seq<u8>, from: int, p: int)
    requires
        0 <= from <= p <= s.len(),
        p < s.len() ==> is_cut(s, p),
        forall|i: int| from <= i < p ==> !is_cut(s, i),
    ensures
        next_cut(s, from) == p,
    decreases p - from,
{
    if from < p {
        assert(!is_cut(s, from));
        lemma_next_cut_is(s, from + 1, p);
    }
}

proof fn lemma_joined_prepend(u: Seq<u8>, units: Seq<Seq<u8>>)
    ensures
        joined(seq![u] + units) == u + joined(units),
{
    assert((seq![u] + units).skip(1) =~= units);
}

/// Splitting loses and invents nothing: the complete units followed by the open
/// one are the input.
pub proof fn law_nals_conserve_bytes(s: Seq<u8>)
    ensures
        joined(complete_nals(s)) + open_nal(s) == s,
    decreases s.len(),
{
    let p = next_cut(s, 0);
    if 0 < p < s.len() {
        law_nals_conserve_bytes(s.skip(p));
        lemma_joined_prepend(s.take(p), complete_nals(s.skip(p)));
        assert(s =~= s.take(p) + s.skip(p));
        assert(joined(complete_nals(s)) + open_nal(s) =~= s.take(p) + (joined(
            complete_nals(s.skip(p)),
        ) + open_nal(s.skip(p))));
    } else {
        assert(joined(complete_nals(s)) + open_nal(s) =~= s);
    }
}

/// Every complete unit but the first of a stream opens with a start code, the
/// open unit does so where any unit is complete, and no unit holds a second one
/// after its first byte.
pub proof fn law_nals_open_with_start_codes(s: Seq<u8>)
    ensures
        forall|k: int|
            0 < k < complete_nals(s).len() ==> is_start_code(#[trigger] complete_nals(s)[k], 0),
        complete_nals(s).len() > 0 ==> is_start_code(open_nal(s), 0),
        forall|k: int, i: int|
            0 <= k < complete_nals(s).len() && 0 < i ==> !#[trigger] is_start_code(
                complete_nals(s)[k],
                i,
            ),
        forall|i: int| 0 < i ==> !is_start_code(open_nal(s), i),
        is_start_code(s, 0) && complete_nals(s).len() > 0 ==> is_start_code(complete_nals(s)[0], 0),
        is_start_code(s, 0) && complete_nals(s).len() == 0 ==> is_start_code(open_nal(s), 0),
    decreases s.len(),
{
    let p = next_cut(s, 0);
    lemma_next_cut(s, 0);
    if 0 < p < s.len() {
        let rest = s.skip(p);
        law_nals_open_with_start_codes(rest);
        assert(is_start_code(rest, 0));
        let head = s.take(p);
        assert forall|i: int| 0 < i implies !is_start_code(head, i) by {
            if is_start_code(head, i) {
                assert(is_cut(s, i));
            }
        }
        if is_start_code(s, 0) {
            // A cut is a start code, and two start codes never overlap.
            assert(p >= 4);
            assert(is_start_code(head, 0));
        }
        assert forall|k: int| 0 < k < complete_nals(s).len() implies is_start_code(
            #[trigger] complete_nals(s)[k],
            0,
        ) by {
            assert(complete_nals(s)[k] == complete_nals(rest)[k - 1]);
        }
        assert forall|k: int, i: int|
            0 <= k < complete_nals(s).len() && 0 < i implies !#[trigger] is_start_code(
            complete_nals(s)[k],
            i,
        ) by {
            if k > 0 {
                assert(complete_nals(s)[k] == complete_nals(rest)[k - 1]);
            }
        }
    } else {
        assert forall|i: int| 0 < i implies !is_start_code(s, i) by {
            if is_start_code(s, i) {
                assert(is_cut(s, i));
            }
        }
    }
}

/// Where the stream is cut into pieces does not matter: feeding `a` and then `b`
/// gives the units that `a + b` gives at once, and leaves the same open unit.
pub proof fn law_nals_do_not_depend_on_pieces(a: Seq<u8>, b: Seq<u8>)
    ensures
        complete_nals(a + b) == complete_nals(a) + complete_nals(open_nal(a) + b),
        open_nal(a + b) == open_nal(open_nal(a) + b),
    decreases a.len(),
{
    let p = next_cut(a, 0);
    lemma_next_cut(a, 0);
    if 0 < p < a.len() {
        law_nals_do_not_depend_on_pieces(a.skip(p), b);
        let ab = a + b;
        assert forall|i: int| 0 <= i < p implies !is_cut(ab, i) by {
            if is_cut(ab, i) {
                if i + 4 <= a.len() {
                    assert(is_cut(a, i));
                } else {
                    // `a` holds a whole start code at `p`, which would overlap this one.
                    assert(p + 4 <= a.len());
                }
            }
        }
        assert(is_cut(ab, p));
        lemma_next_cut_is(ab, 0, p);
        assert(ab.take(p) =~= a.take(p));
        assert(ab.skip(p) =~= a.skip(p) + b);
        assert(complete_nals(ab) =~= complete_nals(a) + complete_nals(open_nal(a) + b));
    } else {
        assert(complete_nals(a + b) =~= complete_nals(a) + complete_nals(open_nal(a) + b));
    }
}

/// Reassembler for NAL units.
pub struct NalReassembler {
    buffer: Vec<u8>,
}

impl View for NalReassembler {
    type V = Seq<u8>;

    /// The bytes that wait for the start code that closes their unit.
    closed spec fn view(&self) -> Seq<u8> {
        self.buffer@
    }
}

impl NalReassembler {
    pub fn new() -> (r: Self)
        ensures
            r@ == Seq::<u8>::empty(),
    {
        NalReassembler { buffer: Vec::new() }
    }

    /// Feeds new H.264 payload and extracts the units that are complete now.
    pub fn feed(&mut self, data: &[u8]) -> (nals: Vec<Vec<u8>>)
        ensures
            contents(nals@) == complete_nals(old(self)@ + data@),
            final(self)@ == open_nal(old(self)@ + data@),
    {
        self.buffer.extend_from_slice(data);
        let ghost all = self.buffer@;
        assert(all =~= old(self)@ + data@);
        let mut nals: Vec<Vec<u8>> = Vec::new();
        let mut i: usize = 0;
        assert(contents(nals@) =~= Seq::<Seq<u8>>::empty());
        while i < self.buffer.len() && self.buffer.len() - i > 3
            invariant
                i <= self.buffer@.len(),
                forall|j: int| 0 <= j < i ==> !is_cut(self.buffer@, j),
                complete_nals(all) == contents(nals@) + complete_nals(self.buffer@),
                open_nal(all) == open_nal(self.buffer@),
            decreases self.buffer@.len(), self.buffer@.len() - i,
        {
            let ghost s = self.buffer@;
            if self.buffer[i] == 0 && self.buffer[i + 1] == 0 && self.buffer[i + 2] == 0
                && self.buffer[i + 3] == 1 {
                if i != 0 {
                    proof {
                        lemma_next_cut_is(s, 0, i as int);
                    }
                    let ghost before = contents(nals@);
                    let mut nal = self.buffer.split_off(i);
                    std::mem::swap(&mut self.buffer, &mut nal);
                    assert(nal@ =~= s.take(i as int));
                    nals.push(nal);
                    assert(self.buffer@ =~= s.skip(i as int));
                    assert(contents(nals@) =~= before.push(s.take(i as int)));
                    assert(before + complete_nals(s) =~= contents(nals@) + complete_nals(
                        self.buffer@,
                    ));
                    i = 0;
                    continue;
                }
                i = i + 4;
            } else {
                i = i + 1;
            }
        }
        proof {
            let s = self.buffer@;
            lemma_next_cut_is(s, 0, s.len() as int);
            assert(contents(nals@) + complete_nals(s) =~= contents(nals@));
        }
        nals
    }

    /// Flushes the remaining partial unit.
    pub fn flush(&mut self) -> (r: Option<Vec<u8>>)
        ensures
            old(self)@.len() == 0 <==> r is None,
            r matches Some(nal) ==> nal@ == old(self)@,
            final(self)@ == Seq::<u8>::empty(),
    {
        if self.buffer.len() != 0 {
            let mut nal: Vec<u8> = Vec::new();
            std::mem::swap(&mut self.buffer, &mut nal);
            Some(nal)
        } else {
            None
        }
    }
}

/// A unit goes from its start code, the bytes 00 00 00 01, to the next one. Where `a` and `b`
/// are the bytes behind two start codes, and hold none themselves, the first unit is complete
/// with its code and `a`, and the second one stays open with its code and `b`.
pub proof fn law_units_by_their_bytes(a: Seq<u8>, b: Seq<u8>)
    requires
        forall|i: int|
            #![trigger a[i]]
            0 <= i && i + 3 < a.len() ==> !(a[i] == 0 && a[i + 1] == 0 && a[i + 2] == 0 && a[i + 3]
                == 1),
        forall|i: int|
            #![trigger b[i]]
            0 <= i && i + 3 < b.len() ==> !(b[i] == 0 && b[i + 1] == 0 && b[i + 2] == 0 && b[i + 3]
                == 1),
    ensures
        ({
            let code = seq![0u8, 0u8, 0u8, 1u8];
            let s = code + a + (code + b);
            &&& complete_nals(s) == seq![code + a]
            &&& open_nal(s) == code + b
            &&& complete_nals(code + a).len() == 0
            &&& open_nal(code + a) == code + a
        }),
{
    let code = seq![0u8, 0u8, 0u8, 1u8];
    let first = code + a;
    let second = code + b;
    let s = first + second;
    let p = first.len() as int;
    lemma_no_cut(a);
    lemma_no_cut(b);
    assert forall|i: int| 0 <= i < p implies !is_cut(s, i) by {
        if is_cut(s, i) {
            if i + 4 <= p {
                assert(is_cut(first, i));
            } else {
                assert(s[i + 3] == second[i + 3 - p]);
            }
        }
    }
    assert(s[p] == second[0] && s[p + 1] == second[1] && s[p + 2] == second[2] && s[p + 3]
        == second[3]);
    lemma_next_cut_is(s, 0, p);
    assert(s.take(p) =~= first);
    assert(s.skip(p) =~= second);
    lemma_next_cut_is(first, 0, p);
    lemma_next_cut_is(second, 0, second.len() as int);
    assert(complete_nals(second) =~= Seq::<Seq<u8>>::empty());
    assert(complete_nals(s) =~= seq![first]);
    assert(open_nal(second) == second);
    assert(open_nal(s) == open_nal(second));
    assert(complete_nals(first) =~= Seq::<Seq<u8>>::empty());
    assert(open_nal(first) == first);
}

proof fn lemma_no_cut(a: Seq<u8>)
    requires
        forall|i: int|
            #![trigger a[i]]
            0 <= i && i + 3 < a.len() ==> !(a[i] == 0 && a[i + 1] == 0 && a[i + 2] == 0 && a[i + 3]
                == 1),
    ensures
        forall|i: int| !is_cut(seq![0u8, 0u8, 0u8, 1u8] + a, i),
{
    let s = seq![0u8, 0u8, 0u8, 1u8] + a;
    assert forall|i: int| !is_cut(s, i) by {
        if is_cut(s, i) && i >= 4 {
            assert(s[i] == a[i - 4] && s[i + 1] == a[i - 3] && s[i + 2] == a[i - 2] && s[i + 3]
                == a[i - 1]);
        }
    }
}

} // verus!
