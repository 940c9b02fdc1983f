//! The tuner's note display: the name of a MIDI note with its octave, as in
//! `A4` for note 69 (440 Hz).
use crate::decimal::{i64_to_decimal, signed_decimal};
use vstd::prelude::*;

verus! {

/// The name of a pitch class, `C` for 0 up to `B` for 11.
pub open spec fn pitch_class_name(k: int) -> Seq<char> {
    if k == 0 {
        "C"@
    } else if k == 1 {
        "C#"@
    } else if k == 2 {
        "D"@
    } else if k == 3 {
        "D#"@
    } else if k == 4 {
        "E"@
    } else if k == 5 {
        "F"@
    } else if k == 6 {
        "F#"@
    } else if k == 7 {
        "G"@
    } else if k == 8 {
        "G#"@
    } else if k == 9 {
        "A"@
    } else if k == 10 {
        "A#"@
    } else {
        "B"@
    }
}

/// `n / 12` rounded toward zero, as integer division in Rust rounds.
pub open spec fn div12_toward_zero(n: int) -> int {
    if n >= 0 {
        n / 12
    } else {
        -((-n) / 12)
    }
}

/// The octave number shown with MIDI note `n`: note 60 is middle C, `C4`.
pub open spec fn octave_of(n: int) -> int {
    div12_toward_zero(n) - 1
}

/// The display name of MIDI note `n`: its pitch class (taken modulo 12,
/// never negative) followed by its octave.
pub open spec fn note_label(n: int) -> Seq<char> {
    pitch_class_name(n % 12) + signed_decimal(octave_of(n))
}

fn pitch_class_str(k: i64) -> (s: &'static str)
    requires
        0 <= k < 12,
    ensures
        s@ == pitch_class_name(k as int),
{
    proof {
        reveal_strlit("C");
        reveal_strlit("C#");
        reveal_strlit("D");
        reveal_strlit("D#");
        reveal_strlit("E");
        reveal_strlit("F");
        reveal_strlit("F#");
        reveal_strlit("G");
        reveal_strlit("G#");
        reveal_strlit("A");
        reveal_strlit("A#");
        reveal_strlit("B");
    }
    if k == 0 {
        "C"
    } else if k == 1 {
        "C#"
    } else if k == 2 {
        "D"
    } else if k == 3 {
        "D#"
    } else if k == 4 {
        "E"
    } else if k == 5 {
        "F"
    } else if k == 6 {
        "F#"
    } else if k == 7 {
        "G"
    } else if k == 8 {
        "G#"
    } else if k == 9 {
        "A"
    } else if k == 10 {
        "A#"
    } else {
        "B"
    }
}

/// The name of the MIDI note nearest to a detected pitch, with its octave.
pub fn note_name(midi: i32) -> (s: String)
    ensures
        s@ == note_label(midi as int),
{
    let n: i64 = midi as i64;
    let class: i64 = if n >= 0 {
        n % 12
    } else {
        let r: i64 = (-n) % 12;
        if r == 0 {
            0
        } else {
            12 - r
        }
    };
    let quotient: i64 = if n >= 0 {
        n / 12
    } else {
        -((-n) / 12)
    };
    assert(class == (midi as int) % 12) by {
        if n < 0 {
            let m: int = -(n as int);
            assert(m == 12 * (m / 12) + m % 12);
            assert(n as int == 12 * (-(m / 12) - 1) + (12 - m % 12));
            assert(n as int == 12 * (-(m / 12)) + 0 ==> m % 12 == 0);
        }
    }
    let name = pitch_class_str(class);
    let octave = i64_to_decimal(quotient - 1);
    String::from_str(name).concat(octave.as_str())
}


/// The twelve pitch classes run up the chromatic scale: the natural notes
/// C, D, E, F, G, A, B, one letter each, sit at 0, 2, 4, 5, 7, 9 and 11, and
/// every other class is the sharp of the class just below it.
pub proof fn lemma_chromatic_scale()
    ensures
        pitch_class_name(0) == seq!['C'],
        pitch_class_name(2) == seq!['D'],
        pitch_class_name(4) == seq!['E'],
        pitch_class_name(5) == seq!['F'],
        pitch_class_name(7) == seq!['G'],
        pitch_class_name(9) == seq!['A'],
        pitch_class_name(11) == seq!['B'],
        forall|k: int|
            0 < k < 12 && k != 2 && k != 4 && k != 5 && k != 7 && k != 9 && k != 11 ==> #[trigger] pitch_class_name(k)
                == pitch_class_name(k - 1) + seq!['#'],
{
    reveal_strlit("C");
    reveal_strlit("C#");
    reveal_strlit("D");
    reveal_strlit("D#");
    reveal_strlit("E");
    reveal_strlit("F");
    reveal_strlit("F#");
    reveal_strlit("G");
    reveal_strlit("G#");
    reveal_strlit("A");
    reveal_strlit("A#");
    reveal_strlit("B");
    assert(pitch_class_name(0) =~= seq!['C']);
    assert(pitch_class_name(2) =~= seq!['D']);
    assert(pitch_class_name(4) =~= seq!['E']);
    assert(pitch_class_name(5) =~= seq!['F']);
    assert(pitch_class_name(7) =~= seq!['G']);
    assert(pitch_class_name(9) =~= seq!['A']);
    assert(pitch_class_name(11) =~= seq!['B']);
    assert(pitch_class_name(1) =~= pitch_class_name(0) + seq!['#']);
    assert(pitch_class_name(3) =~= pitch_class_name(2) + seq!['#']);
    assert(pitch_class_name(6) =~= pitch_class_name(5) + seq!['#']);
    assert(pitch_class_name(8) =~= pitch_class_name(7) + seq!['#']);
    assert(pitch_class_name(10) =~= pitch_class_name(9) + seq!['#']);
}

/// A note's name is the name of its pitch class, which repeats every twelve
/// notes, followed by its octave, which rises by one every twelve notes
/// from C.
pub proof fn lemma_note_names_repeat_by_octave(n: int)
    requires
        n >= 0,
    ensures
        note_label(n) == pitch_class_name(n % 12) + signed_decimal(n / 12 - 1),
        (n + 12) % 12 == n % 12,
        octave_of(n + 12) == octave_of(n) + 1,
{
}

} // verus!
