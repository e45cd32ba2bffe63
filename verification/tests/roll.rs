use chshtui::dice::{rolls_total, RollOutcome};
use chshtui::roll::{
    expect, next_char, parse_one_roll, parse_roll, parse_roll_suff_mods, take_leading_int,
    take_leading_number, trim_whitespace, Roll, RollMod, RollOp, RollSuff,
};

fn modifier(op: RollOp, amount: &str) -> RollMod {
    RollMod {
        op,
        amount: amount.to_string(),
    }
}

#[test]
fn test_format_add_mod() {
    assert_eq!(modifier(RollOp::Add, "3").format(), "+ 3");
}

#[test]
fn test_format_sub_mod() {
    assert_eq!(modifier(RollOp::Sub, "3.2").format(), "- 3.2");
}

#[test]
fn test_format_mul_mod() {
    assert_eq!(modifier(RollOp::Mul, "123").format(), "* 123");
}

#[test]
fn test_format_div_mod() {
    assert_eq!(modifier(RollOp::Div, "0.125").format(), "/ 0.125");
}

#[test]
fn test_format_roll_suffs() {
    assert_eq!(RollSuff::Plain.format(), "");
    assert_eq!(RollSuff::Advantage.format(), "a");
    assert_eq!(RollSuff::Disadvantage.format(), "d");
    assert_eq!(RollSuff::Keep(3).format(), "k3");
}

fn four_d_six() -> Roll {
    Roll {
        quantity: 4,
        size: 6,
        suff: RollSuff::Keep(3),
        mods: vec![modifier(RollOp::Add, "10"), modifier(RollOp::Mul, "10.1")],
    }
}

#[test]
fn test_format_roll() {
    assert_eq!(four_d_six().format(), "4d6k3 + 10 * 10.1");
}

#[test]
fn test_parse_roll() {
    let roll = four_d_six();
    assert_eq!(parse_roll(roll.format().as_str()).unwrap(), roll);
}

#[test]
fn test_parse_keep_suff() {
    let expected: (&[char], RollSuff, Vec<RollMod>) = (&[], RollSuff::Keep(8), Vec::new());
    assert_eq!(parse_roll_suff_mods(&['k', '8']).unwrap(), expected);
}

#[test]
fn test_take_leading_int() {
    let expected: (&[char], u32) = (&['d', '6', 'k', '3'], 4);
    assert_eq!(
        take_leading_int(&['4', 'd', '6', 'k', '3']).unwrap(),
        expected
    );
}

#[test]
fn test_expect() {
    let expected: &[char] = &['6', 'k', '3'];
    assert_eq!(expect('d', &[' ', 'd', '6', 'k', '3']).unwrap(), expected);
}

#[test]
fn test_leading_d() {
    assert_eq!(parse_roll("d20").unwrap().format(), "d20");
}

#[test]
fn test_trim_whitespace() {
    assert_eq!(trim_whitespace(&[' ', ' ', 'd']), &['d']);
}

fn chars(text: &str) -> Vec<char> {
    text.chars().collect()
}

#[test]
fn whole_numbers() {
    assert_eq!(take_leading_int(&chars("")), None);
    assert_eq!(take_leading_int(&chars("   ")), None);
    assert_eq!(take_leading_int(&chars("d6")), None);
    let empty: &[char] = &[];
    assert_eq!(take_leading_int(&chars(" \t 120")), Some((empty, 120)));
    let rest = chars(" 3");
    assert_eq!(take_leading_int(&chars("12 3")), Some((&rest[..], 12)));
    // Thirty-two bits: one more than the largest starts from zero again.
    assert_eq!(take_leading_int(&chars("4294967295")), Some((empty, u32::MAX)));
    assert_eq!(take_leading_int(&chars("4294967296")), Some((empty, 0)));
    assert_eq!(take_leading_int(&chars("4294967301")), Some((empty, 5)));
    assert_eq!(take_leading_int(&chars("007")), Some((empty, 7)));
}

#[test]
fn next_characters() {
    let rest = chars("b ");
    assert_eq!(next_char(&chars("  ab ")), Some((&rest[..], 'a')));
    assert_eq!(next_char(&chars("   ")), None);
    assert_eq!(next_char(&[]), None);
    assert_eq!(expect('d', &chars("  x")), None);
    assert_eq!(expect('d', &chars("")), None);
    assert_eq!(trim_whitespace(&chars("\u{a0}\n\u{3000}x y")), &chars("x y")[..]);
}

#[test]
fn numbers_with_a_point() {
    let empty: &[char] = &[];
    assert_eq!(
        take_leading_number(&chars("10.5")),
        Some((empty, "10.5".to_string()))
    );
    assert_eq!(
        take_leading_number(&chars(" 1 2 . 5 ")),
        Some((&chars(" ")[..], "12.5".to_string()))
    );
    assert_eq!(
        take_leading_number(&chars("1.2.3")),
        Some((&chars(".3")[..], "1.2".to_string()))
    );
    assert_eq!(
        take_leading_number(&chars("5. + 2")),
        Some((&chars(" + 2")[..], "5.".to_string()))
    );
    assert_eq!(
        take_leading_number(&chars(".5x")),
        Some((&chars("x")[..], ".5".to_string()))
    );
    assert_eq!(take_leading_number(&chars(".")), None);
    assert_eq!(take_leading_number(&chars("")), None);
    assert_eq!(take_leading_number(&chars("x1")), None);
}

#[test]
fn operations() {
    assert_eq!(RollOp::from('+'), Some(RollOp::Add));
    assert_eq!(RollOp::from('-'), Some(RollOp::Sub));
    assert_eq!(RollOp::from('*'), Some(RollOp::Mul));
    assert_eq!(RollOp::from('x'), Some(RollOp::Mul));
    assert_eq!(RollOp::from('/'), Some(RollOp::Div));
    assert_eq!(RollOp::from('d'), None);
    assert_eq!(RollOp::Add.format(), "+");
    assert_eq!(RollOp::Sub.format(), "-");
    assert_eq!(RollOp::Mul.format(), "*");
    assert_eq!(RollOp::Div.format(), "/");
}

#[test]
fn suffixes_and_modifiers() {
    let empty: &[char] = &[];
    assert_eq!(
        parse_roll_suff_mods(&chars("a")),
        Some((empty, RollSuff::Advantage, Vec::new()))
    );
    // The last suffix counts.
    assert_eq!(
        parse_roll_suff_mods(&chars("a d")),
        Some((empty, RollSuff::Disadvantage, Vec::new()))
    );
    assert_eq!(
        parse_roll_suff_mods(&chars("k")),
        Some((empty, RollSuff::Keep(1), Vec::new()))
    );
    assert_eq!(
        parse_roll_suff_mods(&chars("+2k3x4")),
        Some((
            empty,
            RollSuff::Keep(3),
            vec![modifier(RollOp::Add, "2"), modifier(RollOp::Mul, "4")]
        ))
    );
    // A modifier without an amount ends what is read before it.
    assert_eq!(
        parse_roll_suff_mods(&chars("a +")),
        Some((&chars(" +")[..], RollSuff::Advantage, Vec::new()))
    );
    assert_eq!(parse_roll_suff_mods(&chars("+")), None);
    assert_eq!(parse_roll_suff_mods(&chars("")), None);
    assert_eq!(parse_roll_suff_mods(&chars("q")), None);
}

#[test]
fn rolls() {
    let plain = |quantity, size| Roll {
        quantity,
        size,
        suff: RollSuff::Plain,
        mods: Vec::new(),
    };
    let empty: &[char] = &[];
    assert_eq!(parse_one_roll(&chars("2d8")), Some((plain(2, 8), empty)));
    assert_eq!(parse_one_roll(&chars("  d 8")), Some((plain(1, 8), empty)));
    assert_eq!(
        parse_one_roll(&chars("3 d 10 !")),
        Some((plain(3, 10), &chars(" !")[..]))
    );
    assert_eq!(parse_one_roll(&chars("3")), None);
    assert_eq!(parse_one_roll(&chars("3d")), None);
    assert_eq!(parse_one_roll(&chars("d")), None);
    assert_eq!(parse_one_roll(&chars("")), None);
    assert_eq!(parse_roll("x"), None);
    assert_eq!(
        parse_roll("1d20 + 5"),
        Some(Roll {
            quantity: 1,
            size: 20,
            suff: RollSuff::Plain,
            mods: vec![modifier(RollOp::Add, "5")],
        })
    );
    assert_eq!(plain(1, 20).format(), "d20");
    assert_eq!(plain(0, 20).format(), "0d20");
    assert_eq!(plain(12, 4).copy(), plain(12, 4));
    assert_eq!(four_d_six().copy(), four_d_six());
}

#[test]
fn what_dice_count_for() {
    let results = vec![3, 6, 1, 6, 2];
    assert_eq!(rolls_total(RollSuff::Plain, &results), 18);
    assert_eq!(rolls_total(RollSuff::Advantage, &results), 6);
    assert_eq!(rolls_total(RollSuff::Disadvantage, &results), 1);
    assert_eq!(rolls_total(RollSuff::Keep(0), &results), 0);
    assert_eq!(rolls_total(RollSuff::Keep(1), &results), 6);
    assert_eq!(rolls_total(RollSuff::Keep(3), &results), 15);
    assert_eq!(rolls_total(RollSuff::Keep(9), &results), 18);
    let none: Vec<u32> = Vec::new();
    assert_eq!(rolls_total(RollSuff::Plain, &none), 0);
    assert_eq!(rolls_total(RollSuff::Advantage, &none), 0);
    assert_eq!(rolls_total(RollSuff::Disadvantage, &none), 0);
    assert_eq!(rolls_total(RollSuff::Keep(2), &none), 0);
    let large = vec![u32::MAX, u32::MAX];
    assert_eq!(rolls_total(RollSuff::Plain, &large), 2 * (u32::MAX as u64));
}

#[test]
fn dice_come_up_with_one_of_their_faces() {
    let roll = Roll {
        quantity: 50,
        size: 6,
        suff: RollSuff::Keep(3),
        mods: Vec::new(),
    };
    let outcome = roll.copy().resolve();
    assert_eq!(outcome.roll, roll);
    assert_eq!(outcome.results.len(), 50);
    assert!(outcome.results.iter().all(|r| (1..=6).contains(r)));
    // Fifty dice do not all come up with their highest face.
    assert!(outcome.results.iter().any(|r| *r != 6));
    assert!(outcome.total() <= 18);
    assert!(outcome.total() >= 3);
    // A die with one face always comes up one; no dice are one die.
    let one = Roll {
        quantity: 0,
        size: 1,
        suff: RollSuff::Plain,
        mods: Vec::new(),
    };
    let outcome = one.resolve();
    assert_eq!(outcome.results, vec![1]);
    assert_eq!(outcome.total(), 1);
    assert_eq!(outcome.format_results(), "1");
    assert_eq!(outcome.clone_roll().format(), "0d1");
    assert_eq!(outcome.into_roll().size, 1);
    let listed = RollOutcome {
        roll: four_d_six(),
        results: vec![3, 5, 1, 20],
    };
    assert_eq!(listed.format_results(), "3, 5, 1, 20");
    assert_eq!(listed.total(), 28);
}

#[test]
fn white_space_is_twenty_five_characters() {
    let spaces: Vec<char> = ('\u{9}'..='\u{d}')
        .chain([' ', '\u{85}', '\u{a0}', '\u{1680}'])
        .chain('\u{2000}'..='\u{200a}')
        .chain(['\u{2028}', '\u{2029}', '\u{202f}', '\u{205f}', '\u{3000}'])
        .collect();
    assert_eq!(spaces.len(), 25);
    for c in '\0'..=char::MAX {
        let text = [c, 'x'];
        let trimmed = trim_whitespace(&text);
        if spaces.contains(&c) {
            assert_eq!(trimmed, &['x'], "{:?}", c);
        } else {
            assert_eq!(trimmed, &text, "{:?}", c);
        }
    }
}
