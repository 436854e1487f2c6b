use note::rewrite::{replace_all_literal, replace_first_anchored, uppercase_first};

fn b(s: &str) -> Vec<u8> {
    s.as_bytes().to_vec()
}

#[test]
fn uppercase_first_lowercase_letter() {
    assert_eq!(uppercase_first(&b("thesis")), b("Thesis"));
}

#[test]
fn uppercase_first_already_upper() {
    assert_eq!(uppercase_first(&b("Thesis")), b("Thesis"));
}

#[test]
fn uppercase_first_empty() {
    assert_eq!(uppercase_first(&b("")), b(""));
}

#[test]
fn uppercase_first_only_first_character() {
    assert_eq!(uppercase_first(&b("my notes")), b("My notes"));
}

#[test]
fn uppercase_first_non_ascii_unchanged() {
    assert_eq!(uppercase_first(&"études".as_bytes().to_vec()), "études".as_bytes().to_vec());
}

#[test]
fn replace_all_substitutes_every_occurrence() {
    let text = b("PROJECT_NAME and PROJECT_NAME again");
    assert_eq!(replace_all_literal(&text, &b("PROJECT_NAME"), &b("thesis")), b("thesis and thesis again"));
}

#[test]
fn replace_all_no_occurrence_unchanged() {
    let text = b("nothing to do");
    assert_eq!(replace_all_literal(&text, &b("PROJECT_NAME"), &b("thesis")), text);
}

#[test]
fn replace_all_does_not_rescan_replacement() {
    // the replacement contains the pattern; it must not be replaced again
    let text = b("xx");
    assert_eq!(replace_all_literal(&text, &b("x"), &b("xy")), b("xyxy"));
}

#[test]
fn replace_all_longer_token_first_avoids_double_substitution() {
    // substituting the capitalized token first leaves the plain token intact
    let text = b("CAPITALIZED_PROJECT_NAME/PROJECT_NAME");
    let step1 = replace_all_literal(&text, &b("CAPITALIZED_PROJECT_NAME"), &b("Thesis"));
    let step2 = replace_all_literal(&step1, &b("PROJECT_NAME"), &b("thesis"));
    assert_eq!(step2, b("Thesis/thesis"));
}

#[test]
fn anchored_replaces_field_value() {
    let text = b("\\author{old name}");
    assert_eq!(
        replace_first_anchored(&text, &b("author"), &b("Ada")),
        b("\\author{Ada}")
    );
}

#[test]
fn anchored_only_first_occurrence_rewritten() {
    let text = b("\\author{one}\n\\author{two}\n");
    assert_eq!(
        replace_first_anchored(&text, &b("author"), &b("Ada")),
        b("\\author{Ada}\n\\author{two}\n")
    );
}

#[test]
fn anchored_absent_field_unchanged() {
    let text = b("\\title{notes}");
    assert_eq!(replace_first_anchored(&text, &b("author"), &b("Ada")), text);
}

#[test]
fn anchored_unclosed_brace_unchanged() {
    let text = b("\\author{never closed");
    assert_eq!(replace_first_anchored(&text, &b("author"), &b("Ada")), text);
}

#[test]
fn anchored_surrounding_text_kept() {
    let text = b("before \\addbibresource{x.bib} after");
    assert_eq!(
        replace_first_anchored(&text, &b("addbibresource"), &b("../bib/thesis.bib")),
        b("before \\addbibresource{../bib/thesis.bib} after")
    );
}

#[test]
fn anchored_empty_new_value() {
    let text = b("\\author{someone}");
    assert_eq!(replace_first_anchored(&text, &b("author"), &b("")), b("\\author{}"));
}
