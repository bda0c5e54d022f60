use decompose_vietnamese::IterDecomposeVietnamese;
use unic_normal::StrNormalForm;

fn check(nfc: char, base: char, tone: char) {
    let mut decompose_vietnamese = vec![nfc].decompose_vietnamese_tones(true);
    assert_eq!(decompose_vietnamese.next(), Some(base));
    assert_eq!(decompose_vietnamese.next(), Some(tone));
    assert_eq!(decompose_vietnamese.next(), None);
}

#[test]
fn test_tones() {
    let bases = [
        'A', 'a', 'Ă', 'ă', 'Â', 'â', 'E', 'e', 'Ê', 'ê', 'I', 'i', 'O', 'o', 'Ô', 'ô', 'Ơ', 'ơ',
        'U', 'u', 'Ư', 'ư', 'Y', 'y',
    ];
    let tones = ['\u{0300}', '\u{0309}', '\u{0303}', '\u{0301}', '\u{0323}'];
    for &base in bases.iter() {
        for &tone in tones.iter() {
            let mut paired = String::new();
            paired.push(base);
            paired.push(tone);
            let nfc = paired.nfc().next().unwrap();
            check(nfc, base, tone);
        }
    }
}
