//! Which notes of a range are captured.

use vstd::prelude::*;

verus! {

/// How many notes of `first..=last` stand at a multiple of `spacing` from
/// `first`.
pub open spec fn stride_count(first: u8, last: u8, spacing: u8) -> nat {
    if first > last {
        0
    } else {
        ((last - first) / (spacing as int) + 1) as nat
    }
}

/// The notes `first`, `first + spacing`, `first + 2 * spacing`, ... that do
/// not pass `last`.
pub open spec fn strided_notes(first: u8, last: u8, spacing: u8) -> Seq<u8> {
    Seq::new(stride_count(first, last, spacing), |k: int| (first + k * spacing) as u8)
}

/// The notes captured for a range: the strided notes, closed by `last`
/// itself where the stride does not land on it. An empty range gives no
/// notes.
pub open spec fn note_sequence(first: u8, last: u8, spacing: u8) -> Seq<u8> {
    let strided = strided_notes(first, last, spacing);
    if strided.len() > 0 && strided.last() != last {
        strided.push(last)
    } else {
        strided
    }
}

/// The notes to capture for the range `first..=last` with every
/// `spacing`-th note taken, in rising order.
pub fn derive_notes(first: u8, last: u8, spacing: u8) -> (notes: Vec<u8>)
    requires
        spacing >= 1,
    ensures
        notes@ == note_sequence(first, last, spacing),
{
    let mut notes: Vec<u8> = Vec::new();
    if first > last {
        assert(notes@ =~= note_sequence(first, last, spacing));
        return notes;
    }
    let width: u8 = last - first;
    let mut offset: u16 = 0;
    assert(offset == notes@.len() * spacing) by (nonlinear_arith)
        requires
            offset == 0,
            notes@.len() == 0,
    ;
    while offset <= width as u16
        invariant
            spacing >= 1,
            first <= last,
            width == last - first,
            offset == notes@.len() * spacing,
            offset <= width + spacing,
            notes@.len() <= stride_count(first, last, spacing),
            forall|k: int|
                0 <= k < notes@.len() ==> notes@[k] == #[verifier::truncate] ((first + k
                    * spacing) as u8),
        decreases width + spacing - offset,
    {
        proof {
            lemma_stride_bounds(width, spacing, notes@.len());
        }
        notes.push(first + offset as u8);
        offset = offset + spacing as u16;
        assert(offset == notes@.len() * spacing) by (nonlinear_arith)
            requires
                offset == (notes@.len() - 1) * spacing + spacing,
        ;
    }
    proof {
        let taken: int = notes@.len() as int;
        assert(taken >= 1 && (taken - 1) * spacing == offset - spacing) by (nonlinear_arith)
            requires
                offset == taken * spacing,
                offset > 0,
                taken >= 0,
                spacing >= 1,
        ;
        lemma_stride_bounds(width, spacing, (taken - 1) as nat);
        assert(notes@ =~= strided_notes(first, last, spacing));
    }
    if notes[notes.len() - 1] != last {
        notes.push(last);
    }
    notes
}

/// Where `count` strides of `spacing` stay within `width`, `count` is below
/// the number of strided notes; where one more stride passes `width`, it is
/// the last of them.
proof fn lemma_stride_bounds(width: u8, spacing: u8, count: nat)
    requires
        spacing >= 1,
        count * spacing <= width,
    ensures
        count <= width / spacing,
        (count + 1) * spacing > width ==> count == width / spacing,
{
    let q: int = width as int / spacing as int;
    let c: int = count as int;
    let s: int = spacing as int;
    let w: int = width as int;
    assert(q * s <= w < (q + 1) * s) by (nonlinear_arith)
        requires
            q == w / s,
            s >= 1,
            w >= 0,
    ;
    assert(c <= q) by (nonlinear_arith)
        requires
            c * s <= w,
            w < (q + 1) * s,
            s >= 1,
    ;
    if (c + 1) * s > w {
        assert(c >= q) by (nonlinear_arith)
            requires
                (c + 1) * s > w,
                q * s <= w,
                s >= 1,
        ;
    }
}

/// The strided notes are the notes of the range whose place in the range,
/// counted from zero, is a multiple of `spacing`.
pub proof fn lemma_strided_by_place(first: u8, last: u8, spacing: u8, note: u8)
    requires
        spacing >= 1,
        first <= note <= last,
    ensures
        strided_notes(first, last, spacing).contains(note) <==> (note - first) % (spacing as int)
            == 0,
{
    let strided = strided_notes(first, last, spacing);
    let s: int = spacing as int;
    let place: int = note - first;
    let width: int = last - first;
    if place % s == 0 {
        let k: int = place / s;
        assert(k * s == place && 0 <= k <= width / s) by (nonlinear_arith)
            requires
                place % s == 0,
                k == place / s,
                0 <= place <= width,
                s >= 1,
        ;
        assert(strided[k] == note);
    }
    if strided.contains(note) {
        let k: int = choose|k: int| 0 <= k < strided.len() && strided[k] == note;
        assert(0 <= k * s <= width) by (nonlinear_arith)
            requires
                0 <= k <= width / s,
                s >= 1,
                width >= 0,
        ;
        assert(place % s == 0) by (nonlinear_arith)
            requires
                place == k * s,
                s >= 1,
        ;
    }
}

/// Every range that holds a note ends its note sequence with `last`,
/// whatever the spacing.
pub proof fn lemma_terminal_note_included(first: u8, last: u8, spacing: u8)
    requires
        first <= last,
        spacing >= 1,
    ensures
        note_sequence(first, last, spacing).len() >= 1,
        note_sequence(first, last, spacing).last() == last,
        note_sequence(first, last, spacing).first() == first,
{
    let strided = strided_notes(first, last, spacing);
    assert(strided.len() >= 1) by (nonlinear_arith)
        requires
            strided.len() == (last - first) / (spacing as int) + 1,
            first <= last,
            spacing >= 1,
    ;
    assert(strided[0] == first);
}

/// A range whose first note lies above its last holds no note at all.
pub proof fn lemma_empty_range(first: u8, last: u8, spacing: u8)
    requires
        first > last,
    ensures
        note_sequence(first, last, spacing) == Seq::<u8>::empty(),
{
    assert(note_sequence(first, last, spacing) =~= Seq::<u8>::empty());
}

/// The notes of a sequence rise strictly and stay within the range, so no
/// note is captured twice.
pub proof fn lemma_notes_rise(first: u8, last: u8, spacing: u8)
    requires
        spacing >= 1,
    ensures
        forall|i: int|
            0 <= i < note_sequence(first, last, spacing).len() ==> first <= (
            #[trigger] note_sequence(first, last, spacing)[i]) <= last,
        forall|i: int, j: int|
            0 <= i < j < note_sequence(first, last, spacing).len() ==> note_sequence(
                first,
                last,
                spacing,
            )[i] < note_sequence(first, last, spacing)[j],
{
    let strided = strided_notes(first, last, spacing);
    let notes = note_sequence(first, last, spacing);
    if first <= last {
        let width: int = last - first;
        let s: int = spacing as int;
        let q: int = width / s;
        assert(q * s <= width) by (nonlinear_arith)
            requires
                q == width / s,
                s >= 1,
                width >= 0,
        ;
        assert forall|k: int| 0 <= k < strided.len() implies first + k * s <= last
            && #[trigger] strided[k] == first + k * s by {
            assert(k * s <= q * s) by (nonlinear_arith)
                requires
                    0 <= k <= q,
                    s >= 1,
            ;
            assert(0 <= k * s) by (nonlinear_arith)
                requires
                    0 <= k,
                    s >= 1,
            ;
        }
        assert forall|i: int, j: int| 0 <= i < j < strided.len() implies strided[i]
            < strided[j] by {
            assert(i * s < j * s) by (nonlinear_arith)
                requires
                    0 <= i < j,
                    s >= 1,
            ;
        }
        assert forall|i: int, j: int| 0 <= i < j < notes.len() implies notes[i] < notes[j] by {
            if j < strided.len() {
                assert(notes[i] == strided[i]);
                assert(notes[j] == strided[j]);
            } else {
                assert(notes[j] == last);
                assert(notes[i] == strided[i]);
                assert(strided[i] <= strided.last());
                if i < strided.len() - 1 {
                    assert(strided[i] < strided[strided.len() - 1]);
                }
            }
        }
        assert forall|i: int| 0 <= i < notes.len() implies first <= (#[trigger] notes[i])
            <= last by {
            if i < strided.len() {
                assert(notes[i] == strided[i]);
            }
        }
    }
}

} // verus!
