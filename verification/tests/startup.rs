use render_state::cli::{
    parse_u32, primitive_inputs, sample_count_from_arg, IndexFormatKind, Topology,
};

#[test]
fn parses_plain_numbers() {
    assert_eq!(parse_u32("0"), Some(0));
    assert_eq!(parse_u32("8"), Some(8));
    assert_eq!(parse_u32("47"), Some(47));
    assert_eq!(parse_u32("007"), Some(7));
    assert_eq!(parse_u32("4294967295"), Some(u32::MAX));
}

#[test]
fn rejects_what_is_not_a_number() {
    assert_eq!(parse_u32(""), None);
    assert_eq!(parse_u32("12a"), None);
    assert_eq!(parse_u32("-4"), None);
    assert_eq!(parse_u32(" 4"), None);
    assert_eq!(parse_u32("4294967296"), None);
    assert_eq!(parse_u32("99999999999999999999"), None);
}

#[test]
fn sample_count_defaults_to_one() {
    assert_eq!(sample_count_from_arg(None), 1);
    assert_eq!(sample_count_from_arg(Some("8")), 8);
    assert_eq!(sample_count_from_arg(Some("abc")), 1);
    assert_eq!(sample_count_from_arg(Some("")), 1);
    assert_eq!(sample_count_from_arg(Some("0")), 1);
}

#[test]
fn strip_variant_selects_strip_topology() {
    let inputs = primitive_inputs("triangle-strip");
    assert_eq!(inputs.topology, Topology::TriangleStrip);
    assert_eq!(inputs.strip_index_format, Some(IndexFormatKind::Uint32));
}

#[test]
fn other_variants_select_triangle_list() {
    let inputs = primitive_inputs("triangle-list");
    assert_eq!(inputs.topology, Topology::TriangleList);
    assert_eq!(inputs.strip_index_format, None);
    let inputs = primitive_inputs("hexagons");
    assert_eq!(inputs.topology, Topology::TriangleList);
    assert_eq!(inputs.strip_index_format, None);
}
