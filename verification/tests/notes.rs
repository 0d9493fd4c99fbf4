use audio_multisample::derive_notes;

#[test]
fn piano_range_in_octaves_ends_on_the_last_note() {
    assert_eq!(derive_notes(21, 108, 12), vec![21, 33, 45, 57, 69, 81, 93, 105, 108]);
}

#[test]
fn spacing_one_takes_every_note() {
    let notes = derive_notes(21, 108, 1);
    assert_eq!(notes.len(), 88);
    assert_eq!(notes, (21..=108).collect::<Vec<u8>>());
}

#[test]
fn a_stride_that_lands_on_the_last_note_adds_nothing() {
    assert_eq!(derive_notes(60, 72, 12), vec![60, 72]);
    assert_eq!(derive_notes(60, 72, 4), vec![60, 64, 68, 72]);
}

#[test]
fn a_single_note_range_gives_that_note() {
    assert_eq!(derive_notes(60, 60, 1), vec![60]);
    assert_eq!(derive_notes(60, 60, 7), vec![60]);
    assert_eq!(derive_notes(0, 0, 255), vec![0]);
    assert_eq!(derive_notes(255, 255, 1), vec![255]);
}

#[test]
fn an_empty_range_gives_no_notes() {
    assert_eq!(derive_notes(61, 60, 1), Vec::<u8>::new());
    assert_eq!(derive_notes(108, 21, 12), Vec::<u8>::new());
    assert_eq!(derive_notes(255, 0, 255), Vec::<u8>::new());
}

#[test]
fn a_spacing_wider_than_the_range_gives_first_and_last() {
    assert_eq!(derive_notes(21, 108, 100), vec![21, 108]);
    assert_eq!(derive_notes(0, 255, 255), vec![0, 255]);
    assert_eq!(derive_notes(0, 254, 255), vec![0, 254]);
}

#[test]
fn the_whole_byte_range_is_covered() {
    let notes = derive_notes(0, 255, 1);
    assert_eq!(notes.len(), 256);
    assert_eq!(notes[0], 0);
    assert_eq!(notes[255], 255);
    assert_eq!(derive_notes(0, 255, 128), vec![0, 128, 255]);
    assert_eq!(derive_notes(0, 255, 85), vec![0, 85, 170, 255]);
}

#[test]
fn every_range_with_a_note_ends_on_its_last_note() {
    for first in (0..=255u8).step_by(5) {
        for last in (first..=255u8).step_by(3) {
            for spacing in [1u8, 2, 3, 7, 12, 13, 100, 254, 255] {
                let notes = derive_notes(first, last, spacing);
                assert_eq!(notes.first(), Some(&first));
                assert_eq!(notes.last(), Some(&last));
                assert!(notes.windows(2).all(|pair| pair[0] < pair[1]));
                let strided = notes.len() - 1;
                for (k, note) in notes.iter().take(strided).enumerate() {
                    assert_eq!(*note as usize, first as usize + k * spacing as usize);
                }
            }
        }
    }
}
