use supershuckie::file_names::{compare_file_names, NameOrder};
use supershuckie::parse::chars_of;
use supershuckie::text::{decimal_text, join3, trim};

#[test]
fn numbered_names_sort_by_number() {
    assert_eq!(compare_file_names("save-2", "save-10"), NameOrder::Less);
    assert_eq!(compare_file_names("save-10", "save-2"), NameOrder::Greater);
    assert_eq!(compare_file_names("save-1", "save-01"), NameOrder::Equal);
    assert_eq!(compare_file_names("a-b-3", "a-b-20"), NameOrder::Less);
}

#[test]
fn other_names_sort_as_text() {
    assert_eq!(compare_file_names("abc", "abd"), NameOrder::Less);
    assert_eq!(compare_file_names("save-10", "save"), NameOrder::Greater);
    assert_eq!(compare_file_names("alpha-9", "beta-1"), NameOrder::Less);
    assert_eq!(compare_file_names("save-x", "save-2"), NameOrder::Greater);
    assert_eq!(compare_file_names("same", "same"), NameOrder::Equal);
    assert_eq!(compare_file_names("", "a"), NameOrder::Less);
}

#[test]
fn name_order_is_antisymmetric_on_examples() {
    let names = ["run-1", "run-10", "run-2", "run", "zz-3", "run-x", "é-1"];
    for a in names {
        for b in names {
            let ab = compare_file_names(a, b);
            let ba = compare_file_names(b, a);
            assert_eq!(ab == NameOrder::Less, ba == NameOrder::Greater);
            assert_eq!(ab == NameOrder::Equal, ba == NameOrder::Equal);
        }
        assert_eq!(compare_file_names(a, a), NameOrder::Equal);
    }
}

#[test]
fn decimal_texts() {
    assert_eq!(decimal_text(0), "0");
    assert_eq!(decimal_text(7), "7");
    assert_eq!(decimal_text(10), "10");
    assert_eq!(decimal_text(1234567890), "1234567890");
    assert_eq!(decimal_text(u64::MAX), u64::MAX.to_string());
}

#[test]
fn joining_and_chars() {
    assert_eq!(join3("a", "", "c"), "ac");
    assert_eq!(chars_of("hé!"), vec!['h', 'é', '!']);
}

#[test]
fn trimming_matches_std() {
    let samples = [
        "", " ", "a", "  a b  ", "\u{3000}x\u{85}", "\n\t- line\n", "\u{200b}z\u{200b}", "\u{a0}\u{1680}\u{2000}\u{200a}\u{2028}\u{2029}\u{202f}\u{205f}",
        "\u{b}\u{c}\r k \u{1c}",
    ];
    for s in samples {
        assert_eq!(trim(s), s.trim());
    }
    assert_eq!(trim(" \u{3000}a b\u{85}\n"), "a b");
}

#[test]
fn file_names_sort_for_listing() {
    use_sort();
}

fn use_sort() {
    let names: Vec<String> = ["save-10", "save-2", "boss", "save-1", "alpha-3"].iter().map(|s| s.to_string()).collect();
    let sorted = supershuckie::file_names::sort_file_names(&names);
    assert_eq!(sorted, vec!["alpha-3", "boss", "save-1", "save-2", "save-10"]);
    let mut a = sorted.clone();
    a.sort();
    let mut b = names.clone();
    b.sort();
    assert_eq!(a, b);
    assert!(supershuckie::file_names::sort_file_names(&Vec::new()).is_empty());
}
