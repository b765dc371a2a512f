use pack_index::downloader::{decide_leaf, DownloadPool, LeafPlan};
use pack_index::model::{PdscRef, Pidx, Vidx};
use pack_index::resolver::{expand_root, plan_seeds, sub_index_leaf_refs};

fn leaf(url: &str, vendor: &str, name: &str, version: &str) -> PdscRef {
    PdscRef {
        url: url.to_string(),
        vendor: vendor.to_string(),
        name: name.to_string(),
        version: version.to_string(),
    }
}

#[test]
fn identity_returns_its_argument() {
    assert_eq!(pack_index::id(7usize), 7);
    assert_eq!(pack_index::id("x".to_string()), "x");
}

#[test]
fn an_unparsable_seed_drops_only_itself() {
    let seeds = vec![
        "http://example.com/a.vidx".to_string(),
        "http://bad uri/".to_string(),
        "http://example.com/b.vidx".to_string(),
    ];
    let plans = plan_seeds(&seeds);
    assert_eq!(plans.len(), 3);
    assert_eq!(plans[0].as_ref().unwrap().text, "http://example.com/a.vidx");
    assert!(plans[1].is_none());
    assert_eq!(plans[2].as_ref().unwrap().text, "http://example.com/b.vidx");
}

#[test]
fn planned_uris_are_canonical_not_echoed() {
    // The URI layer hands back the parser's canonical form, not the input
    // text: an authority with no path gains its root path.
    let plans = plan_seeds(&vec!["http://example.com".to_string()]);
    let parts = plans[0].as_ref().unwrap();
    assert_eq!(parts.text, "http://example.com/");
    assert_eq!(parts.authority.as_deref(), Some("example.com"));
}

#[test]
fn expansion_builds_one_sub_index_fetch_per_pointer() {
    let vidx = Vidx {
        vendor_index: vec![
            Pidx { url: "http://one.example/".to_string(), vendor: "One".to_string() },
            Pidx { url: "http://two.example/".to_string(), vendor: "Two".to_string() },
        ],
        pdsc_index: vec![leaf("http://one.example/", "One", "Board", "1.0.0")],
    };
    let (direct, subs) = expand_root(vidx);
    assert_eq!(direct.len(), 1);
    assert_eq!(direct[0].name, "Board");
    assert_eq!(subs, vec!["http://one.example/One.pidx", "http://two.example/Two.pidx"]);
}

#[test]
fn sub_index_pointers_inside_a_sub_index_are_not_expanded() {
    let sub = Vidx {
        vendor_index: vec![Pidx {
            url: "http://nested.example/".to_string(),
            vendor: "Nested".to_string(),
        }],
        pdsc_index: vec![
            leaf("http://one.example/", "One", "A", "1.0.0"),
            leaf("http://one.example/", "One", "B", "1.0.0"),
        ],
    };
    let refs = sub_index_leaf_refs(sub);
    assert_eq!(refs.len(), 2);
    assert_eq!(refs[0].name, "A");
    assert_eq!(refs[1].name, "B");
}

#[test]
fn root_with_three_direct_refs_and_no_pointers_makes_three_attempts() {
    let vidx = Vidx {
        vendor_index: Vec::new(),
        pdsc_index: vec![
            leaf("http://example.com/", "Vendor", "One", "1.0.0"),
            leaf("http://example.com/", "Vendor", "Two", "1.0.0"),
            leaf("http://example.com/", "Vendor", "Three", "1.0.0"),
        ],
    };
    let (direct, subs) = expand_root(vidx);
    // Zero sub-index fetches, exactly three leaf-download attempts.
    assert!(subs.is_empty());
    assert_eq!(direct.len(), 3);
    let mut pool = DownloadPool::new();
    let mut attempts = 0usize;
    for r in &direct {
        match decide_leaf(r, false) {
            LeafPlan::Fetch(j) => {
                assert!(pool.submit(j).is_some());
                attempts += 1;
            }
            _ => panic!("expected a fetch"),
        }
    }
    assert_eq!(attempts, 3);
    assert_eq!(pool.in_flight, 3);
}
