use pack_index::model::{PdscRef, Pidx};
use pack_index::urls::{dest_file_name, leaf_url, sub_index_url};

fn leaf(url: &str, vendor: &str, name: &str, version: &str) -> PdscRef {
    PdscRef {
        url: url.to_string(),
        vendor: vendor.to_string(),
        name: name.to_string(),
        version: version.to_string(),
    }
}

#[test]
fn sub_index_url_appends_vendor_and_suffix() {
    let p = Pidx { url: "http://example.com/pack/".to_string(), vendor: "Vendor".to_string() };
    assert_eq!(sub_index_url(&p), "http://example.com/pack/Vendor.pidx");
}

#[test]
fn sub_index_url_inserts_no_separator() {
    let p = Pidx { url: "http://example.com/pack".to_string(), vendor: "Vendor".to_string() };
    assert_eq!(sub_index_url(&p), "http://example.com/packVendor.pidx");
}

#[test]
fn leaf_url_keeps_trailing_slash() {
    let r = leaf("http://example.com/pack/", "Vendor", "Board", "1.0.0");
    assert_eq!(leaf_url(&r), "http://example.com/pack/Vendor.Board.pdsc");
}

#[test]
fn leaf_url_inserts_separator_when_missing() {
    let r = leaf("http://example.com/pack", "Vendor", "Board", "1.0.0");
    assert_eq!(leaf_url(&r), "http://example.com/pack/Vendor.Board.pdsc");
}

#[test]
fn leaf_url_on_empty_base_inserts_separator() {
    let r = leaf("", "Vendor", "Board", "1.0.0");
    assert_eq!(leaf_url(&r), "/Vendor.Board.pdsc");
}

#[test]
fn dest_file_name_is_the_identity_triple() {
    let r = leaf("http://example.com/", "Vendor", "Board", "1.2.3");
    assert_eq!(dest_file_name(&r), "Vendor.Board.1.2.3.pdsc");
}

#[test]
fn same_triple_same_destination_whatever_the_source() {
    let a = leaf("http://mirror-one.example/a/", "Vendor", "Board", "2.0.0");
    let b = leaf("http://mirror-two.example/other/", "Vendor", "Board", "2.0.0");
    assert_eq!(dest_file_name(&a), dest_file_name(&b));
    assert_ne!(leaf_url(&a), leaf_url(&b));
}
