use histogram::text::{escape_str, fmt_u64};

#[test]
fn fmt_u64_exact_values() {
    assert_eq!(fmt_u64(0), "0");
    assert_eq!(fmt_u64(7), "7");
    assert_eq!(fmt_u64(10), "10");
    assert_eq!(fmt_u64(35129025), "35129025");
    assert_eq!(fmt_u64(u64::MAX), "18446744073709551615");
}

#[test]
fn escape_leaves_plain_text_alone() {
    assert_eq!(escape_str("Jul 14"), "Jul 14");
    assert_eq!(escape_str(""), "");
}

#[test]
fn escape_keeps_non_ascii_text() {
    assert_eq!(escape_str("héllo wörld"), "héllo wörld");
}

#[test]
fn escape_replaces_markup_metacharacters() {
    assert_eq!(escape_str("a&b<c>d\"e"), "a&amp;b&lt;c&gt;d&quot;e");
    assert_eq!(escape_str("<<&&"), "&lt;&lt;&amp;&amp;");
}
