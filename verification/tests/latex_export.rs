use golive::services::latex_export::{escape_latex, escape_latex_multiline};

#[test]
fn escape_latex_escapes_every_special_character() {
    let input = "100% & #1 $cost_ {a} \\ ~tilde ^caret";
    let escaped = escape_latex(input);
    assert_eq!(
        escaped,
        "100\\% \\& \\#1 \\$cost\\_ \\{a\\} \\textbackslash{} \\textasciitilde{}tilde \\textasciicircum{}caret"
    );
}

#[test]
fn escape_latex_multiline_joins_lines_with_a_latex_line_break() {
    let input = "First line\nSecond line with 50%";
    assert_eq!(escape_latex_multiline(input), "First line \\\\\nSecond line with 50\\%");
}
