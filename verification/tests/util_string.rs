use threescalers::util::string::AllCaps;

#[test]
fn ensure_all_caps_always_is_fully_capitalized() {
    let mixed_case_s = "miX3d_case-str^Ng.";

    let all_caps = AllCaps::from(mixed_case_s);

    assert_eq!(all_caps.as_str(), mixed_case_s.to_ascii_uppercase());
    assert_eq!(all_caps.into_inner(), "MIX3D_CASE-STR^NG.");
}
