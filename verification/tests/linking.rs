use expl_compiler::linker::{
    __get_xsm_address, contains_exec, label_addresses, relocate, replace_all_exec, split_lines,
    strip_labels,
};
use expl_compiler::list::{List, SymTable};

fn chars(s: &str) -> Vec<char> {
    s.chars().collect()
}

fn text(v: &Vec<char>) -> String {
    v.iter().collect()
}

fn entries(t: &SymTable<usize>) -> Vec<(String, usize)> {
    let mut out = Vec::new();
    let mut cur = &t.entries;
    while let List::Cons(e, rest) = cur {
        out.push((e.0.clone(), e.1));
        cur = rest;
    }
    out
}

/// The char span of the first occurrence of `pat` in `s`.
fn span_of(s: &str, pat: &str) -> (usize, usize) {
    let start = s.find(pat).unwrap();
    let c = s[..start].chars().count();
    (c, c + pat.chars().count())
}

const HEADER: &str = "0\n2056\n0\n0\n0\n0\n0\n0\n";

#[test]
fn addresses_of_lines() {
    assert_eq!(__get_xsm_address(1), 0);
    assert_eq!(__get_xsm_address(8), 0);
    assert_eq!(__get_xsm_address(9), 2056);
    assert_eq!(__get_xsm_address(10), 2058);
    assert_eq!(__get_xsm_address(20), 2078);
}

#[test]
fn lines_like_str_lines() {
    let l = split_lines(&chars("a\r\nb\n\nc"));
    assert_eq!(l, vec![chars("a"), chars("b"), chars(""), chars("c")]);
    assert_eq!(split_lines(&chars("x\n")), vec![chars("x")]);
    assert_eq!(split_lines(&chars("")), Vec::<Vec<char>>::new());
    assert_eq!(split_lines(&chars("a\r")), vec![chars("a\r")]);
    assert_eq!(split_lines(&chars("\n")), vec![chars("")]);
}

#[test]
fn replace_like_str_replace() {
    let cases = [("aXbXc", "X", "--"), ("aaa", "aa", "b"), ("ab", "", "-"), ("abc", "z", "y"), ("", "", "!")];
    for (t, p, r) in cases {
        assert_eq!(text(&replace_all_exec(&chars(t), &chars(p), &chars(r))), t.replace(p, r));
    }
    assert!(contains_exec(&chars("JMP L12"), &chars("L12")));
    assert!(!contains_exec(&chars("JMP L1"), &chars("L12")));
    assert!(contains_exec(&chars("abc"), &chars("")));
}

#[test]
fn label_gets_address_of_next_instruction() {
    let input = format!("{}BRKP\nCALL L0\nL0:\nMOV R0, 1\nJMP L0\n", HEADER);
    let spans = vec![span_of(&input, "L0:\n")];
    let table = label_addresses(&input, &spans).unwrap();
    assert_eq!(entries(&table), vec![("L0".to_string(), 2060)]);
    let stripped = strip_labels(&input, &spans).unwrap();
    assert_eq!(text(&stripped), format!("{}BRKP\nCALL L0\nMOV R0, 1\nJMP L0\n", HEADER));
    let out = relocate(&stripped, &entries(&table));
    let lines: Vec<String> = out.iter().map(text).collect();
    assert_eq!(lines[9], "CALL 2060");
    assert_eq!(lines[10], "MOV R0, 1");
    assert_eq!(lines[11], "JMP 2060");
    assert_eq!(lines.len(), 12);
}

#[test]
fn grouped_labels_share_an_address() {
    let input = format!("{}BRKP\nJMP L2\nL1:\nL2:\nRET\nL3:\nJZ R0, L3\nCALL L1\n", HEADER);
    let spans = vec![span_of(&input, "L1:\nL2:\n"), span_of(&input, "L3:\n")];
    let table = label_addresses(&input, &spans).unwrap();
    let mut e = entries(&table);
    e.sort();
    assert_eq!(e, vec![("L1".to_string(), 2060), ("L2".to_string(), 2060), ("L3".to_string(), 2062)]);
    let stripped = strip_labels(&input, &spans).unwrap();
    assert_eq!(text(&stripped), format!("{}BRKP\nJMP L2\nRET\nJZ R0, L3\nCALL L1\n", HEADER));
    let out: Vec<String> = relocate(&stripped, &e).iter().map(text).collect();
    assert_eq!(out[9], "JMP 2060");
    assert_eq!(out[10], "RET");
    assert_eq!(out[11], "JZ R0, 2062");
    assert_eq!(out[12], "CALL 2060");
}

#[test]
fn lines_without_labels_are_kept() {
    let t = chars("MOV R0, 1\nADD R0, R1");
    let out: Vec<String> = relocate(&t, &vec![("L4".to_string(), 2070)]).iter().map(text).collect();
    assert_eq!(out, vec!["MOV R0, 1".to_string(), "ADD R0, R1".to_string()]);
}

#[test]
fn spans_outside_the_text_stop_the_linker() {
    let input = "L0:\n".to_string();
    assert!(label_addresses(&input, &vec![(2, 9)]).is_none());
    assert!(strip_labels(&input, &vec![(3, 2)]).is_none());
}

#[test]
fn each_label_use_gets_its_own_address() {
    let t = chars("JMP L10\nJMP L1\nCALL L1\n");
    for order in [
        vec![("L1".to_string(), 2060), ("L10".to_string(), 2080)],
        vec![("L10".to_string(), 2080), ("L1".to_string(), 2060)],
    ] {
        let out: Vec<String> = relocate(&t, &order).iter().map(text).collect();
        assert_eq!(out, vec!["JMP 2080".to_string(), "JMP 2060".to_string(), "CALL 2060".to_string()]);
    }
}

#[test]
fn second_pass_from_given_labels() {
    let input = format!("{}BRKP\nL7:\nRET\n", HEADER);
    let tags = vec![vec!["L7".to_string()]];
    let table = expl_compiler::linker::assign_addresses(&input, &tags).unwrap();
    assert_eq!(entries(&table), vec![("L7".to_string(), 2058)]);
}
