use decompose_vietnamese::IterDecomposeVietnamese;
use decompose_vietnamese::decompose_char;

fn collect(input: &str, orthographic: bool) -> Vec<char> {
    let v: Vec<char> = input.chars().collect();
    v.decompose_vietnamese_tones(orthographic).into_vec()
}

#[test]
fn scenario_extension_dot_below() {
    assert_eq!(collect("\u{1EA0}", true), vec!['A', '\u{0323}']);
    // The extension set decomposes regardless of the flag.
    assert_eq!(collect("\u{1EA0}", false), vec!['A', '\u{0323}']);
}

#[test]
fn scenario_extension_tilde_y() {
    assert_eq!(collect("\u{1EF8}", true), vec!['Y', '\u{0303}']);
    assert_eq!(collect("\u{1EF9}", true), vec!['y', '\u{0303}']);
    assert_eq!(collect("\u{1EF8}", false), vec!['Y', '\u{0303}']);
    assert_eq!(collect("\u{1EF9}", false), vec!['y', '\u{0303}']);
}

#[test]
fn scenario_middle_set() {
    // Ã exercises the middle-set tilde rule.
    assert_eq!(collect("\u{C3}", true), vec!['A', '\u{0303}']);
    assert_eq!(collect("\u{C3}", false), vec!['A', '\u{0303}']);
    // Ý exercises the middle-set acute special case.
    assert_eq!(collect("\u{DD}", true), vec!['Y', '\u{0301}']);
    assert_eq!(collect("\u{DD}", false), vec!['Y', '\u{0301}']);
}

#[test]
fn scenario_win1258_gated_on_flag() {
    // Á has a precomposed windows-1258 form: untouched unless orthographic.
    assert_eq!(collect("\u{C1}", false), vec!['\u{C1}']);
    assert_eq!(collect("\u{C1}", true), vec!['A', '\u{0301}']);
}

#[test]
fn scenario_circumflex_retained() {
    // Only the acute is detached; the circumflex stays on the base.
    assert_eq!(collect("\u{1EA5}", true), vec!['\u{E2}', '\u{0301}']);
}

#[test]
fn scenario_no_entry_unchanged() {
    assert_eq!(collect("z", true), vec!['z']);
    assert_eq!(collect("z", false), vec!['z']);
}

#[test]
fn pass_through_unchanged_any_flag() {
    // Characters absent from all three tables are echoed as they came,
    // orphan combining marks included.
    for c in ['z', '0', ' ', '\u{0300}', '\u{0110}', '\u{0111}', '\u{1E00}'] {
        let input: String = c.to_string();
        assert_eq!(collect(&input, true), vec![c]);
        assert_eq!(collect(&input, false), vec![c]);
    }
}

#[test]
fn monotonic_decomposition() {
    // Whatever decomposes with the windows-1258 set disabled decomposes
    // identically with it enabled.
    for s in ["\u{FD}", "\u{1EF8}", "\u{1EC7}", "\u{1EA0}", "\u{168}"] {
        let lax = collect(s, false);
        let strict = collect(s, true);
        assert_eq!(lax.len(), 2);
        assert_eq!(lax, strict);
    }
}

#[test]
fn one_tone_mark_per_decomposition() {
    let tone_marks = ['\u{0300}', '\u{0301}', '\u{0303}', '\u{0309}', '\u{0323}'];
    // Every decomposable character in the three ranges splits into a base
    // that is no tone mark followed by exactly one of the five marks.
    let mut decomposed = 0;
    for u in 0xC0u32..0x1F00u32 {
        let c = match char::from_u32(u) {
            Some(c) => c,
            None => continue,
        };
        if let Some((base, tone)) = decompose_char(c, true) {
            assert!(tone_marks.contains(&tone));
            assert!(!tone_marks.contains(&base));
            decomposed += 1;
        }
    }
    assert_eq!(decomposed, 120);
}

#[test]
fn exhaustion_stable() {
    let mut it = vec!['\u{1EA0}'].decompose_vietnamese_tones(true);
    assert_eq!(it.next(), Some('A'));
    assert_eq!(it.next(), Some('\u{0323}'));
    for _ in 0..5 {
        assert_eq!(it.next(), None);
    }
}

#[test]
fn empty_input() {
    let mut it = Vec::new().decompose_vietnamese_tones(true);
    for _ in 0..3 {
        assert_eq!(it.next(), None);
    }
    let empty: Vec<char> = Vec::new();
    assert_eq!(empty.decompose_vietnamese_tones(false).into_vec(), Vec::new());
}

#[test]
fn classifier_cases() {
    assert_eq!(decompose_char('\u{1EA0}', false), Some(('A', '\u{0323}')));
    assert_eq!(decompose_char('\u{C3}', false), Some(('A', '\u{0303}')));
    assert_eq!(decompose_char('\u{C1}', false), None);
    assert_eq!(decompose_char('\u{C1}', true), Some(('A', '\u{0301}')));
    assert_eq!(decompose_char('A', true), None);
    assert_eq!(decompose_char('\u{0301}', true), None);
}

#[test]
fn mixed_text() {
    assert_eq!(
        collect("Ti\u{1EBF}ng Vi\u{1EC7}t", false),
        vec!['T', 'i', '\u{EA}', '\u{0301}', 'n', 'g', ' ', 'V', 'i', '\u{EA}', '\u{0323}', 't'],
    );
    assert_eq!(
        collect("c\u{E0} ph\u{EA}", false),
        vec!['c', '\u{E0}', ' ', 'p', 'h', '\u{EA}'],
    );
    assert_eq!(
        collect("c\u{E0} ph\u{EA}", true),
        vec!['c', 'a', '\u{0300}', ' ', 'p', 'h', '\u{EA}'],
    );
}
