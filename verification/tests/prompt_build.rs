use git_commit::prompt::{build_prompt, INSTRUCTION};

#[test]
fn prompt_begins_with_diff_and_ends_with_instruction() {
    let diff = "diff --git a/x b/x\n+added line\n";
    let p = build_prompt(diff);
    assert!(p.starts_with(diff));
    assert!(p.ends_with(INSTRUCTION));
    assert_eq!(p.len(), diff.len() + INSTRUCTION.len());
}

#[test]
fn prompt_is_exactly_diff_then_instruction() {
    let diff = "abc";
    let p = build_prompt(diff);
    let mut expected = String::from("abc");
    expected.push_str(INSTRUCTION);
    assert_eq!(p, expected);
}

#[test]
fn prompt_building_is_deterministic() {
    let diff = "diff --git a/y b/y\n-removed\n";
    assert_eq!(build_prompt(diff), build_prompt(diff));
}

#[test]
fn prompt_of_empty_diff_is_instruction_alone() {
    assert_eq!(build_prompt(""), INSTRUCTION);
}

#[test]
fn instruction_asks_for_a_one_liner() {
    assert!(INSTRUCTION.contains("one-liner"));
    assert!(INSTRUCTION.contains("commit message"));
}
