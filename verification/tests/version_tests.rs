use hupdater::version::{normalize_version_label, version_greater_than, version_parts_of};

#[test]
fn normalize_strips_space_and_v() {
    assert_eq!(normalize_version_label("  v0.4.5.1  "), "0.4.5.1");
    assert_eq!(normalize_version_label("V1.2"), "1.2");
    assert_eq!(normalize_version_label("vV 3.0 "), "3.0");
    assert_eq!(normalize_version_label(""), "");
    assert_eq!(normalize_version_label("   "), "");
    assert_eq!(normalize_version_label("vvv"), "");
    assert_eq!(normalize_version_label("\u{3000}v7\t"), "7");
}

#[test]
fn normalize_keeps_inner_v_after_space() {
    // Only one round of v-stripping happens: "v v1" keeps its second v.
    assert_eq!(normalize_version_label("v v1"), "v1");
}

#[test]
fn greater_by_first_difference() {
    assert!(version_greater_than("0.5.0", "0.4.9"));
    assert!(!version_greater_than("0.4.9", "0.5.0"));
    assert!(version_greater_than("1.10", "1.9"));
    assert!(!version_greater_than("1.2.3", "1.2.3"));
}

#[test]
fn longer_version_is_greater_when_prefix_equal() {
    assert!(version_greater_than("1.2.1", "1.2"));
    assert!(!version_greater_than("1.2", "1.2.1"));
}

#[test]
fn unparsable_components_are_skipped() {
    assert_eq!(version_parts_of("1.x.3"), vec![1, 3]);
    assert_eq!(version_parts_of("+4.-1.99999999999.7"), vec![4, 7]);
    assert_eq!(version_parts_of(""), Vec::<u32>::new());
    assert_eq!(version_parts_of("4294967295.4294967296"), vec![4294967295]);
    assert!(version_greater_than("1.x.3", "1.2"));
}

#[test]
fn ordering_laws_on_samples() {
    let samples = ["0.1", "0.1.0", "0.2", "1", "1.0.1", "10", "", "a.b"];
    for a in samples {
        assert!(!version_greater_than(a, a));
        for b in samples {
            if version_greater_than(a, b) {
                assert!(!version_greater_than(b, a));
            }
            for c in samples {
                if version_greater_than(a, b) && version_greater_than(b, c) {
                    assert!(version_greater_than(a, c));
                }
            }
        }
    }
}

#[test]
fn normalized_labels_are_trimmed() {
    for s in [" v 1 ", "\tV\u{2003}2\u{2003}", "x ", "v", " vv v3"] {
        let n = normalize_version_label(s);
        assert_eq!(n, n.trim());
    }
}

#[test]
fn first_difference_decides() {
    // Decided at the first differing component, whatever follows.
    assert!(version_greater_than("1.3.0", "1.2.9.9"));
    assert!(!version_greater_than("1.2.9.9", "1.3.0"));
    // A proper prefix is older.
    assert!(version_greater_than("1.2.0", "1.2"));
    assert!(!version_greater_than("1.2", "1.2.0"));
    // Same components: neither is newer.
    assert!(!version_greater_than("1.02", "1.2"));
    assert!(!version_greater_than("1.2", "1.02"));
    assert!(!version_greater_than("1.x.2", "1.2"));
}
