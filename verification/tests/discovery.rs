use operator_host::discovery::{ApiCatalog, ApiResourceInfo, DiscoveryError};

fn resource(group: &str, version: &str, kind: &str, plural: &str) -> ApiResourceInfo {
    ApiResourceInfo {
        group: group.to_string(),
        version: version.to_string(),
        kind: kind.to_string(),
        plural: plural.to_string(),
    }
}

fn catalog() -> ApiCatalog {
    ApiCatalog {
        resources: vec![
            resource("", "v1", "Pod", "pods"),
            resource("example.com", "v1", "Ring", "rings"),
            resource("example.com", "v2", "Ring", "rings"),
            resource("amurant.io", "v1", "TestResource", "testresources"),
        ],
    }
}

#[test]
fn kind_is_found_whatever_its_case() {
    let catalog = catalog();
    for asked in ["Ring", "ring", "RING", "rInG"] {
        let found = catalog.find_api_resource(asked).expect("kind is served");
        assert_eq!(found.group, "example.com");
        assert_eq!(found.version, "v1");
        assert_eq!(found.kind, "Ring");
        assert_eq!(found.plural, "rings");
        assert_eq!(catalog.position_of(asked), Some(1));
    }
    assert_eq!(catalog.position_of("testresource"), Some(3));
    assert_eq!(catalog.position_of("pod"), Some(0));
}

#[test]
fn first_match_wins() {
    let catalog = catalog();
    assert_eq!(catalog.find_api_resource("Ring").expect("kind is served").version, "v1");
}

#[test]
fn unknown_kind_is_an_error_that_names_it() {
    let catalog = catalog();
    for asked in ["Rings", "Rin", "", "Ríng", "Pod "] {
        match catalog.find_api_resource(asked) {
            Err(error) => {
                assert!(matches!(&error, DiscoveryError::UnknownKind(kind) if kind == asked));
                assert_eq!(
                    error.message(),
                    format!("Kind '{}' not found in discovered API resources", asked)
                );
            }
            Ok(found) => panic!("unexpected resource {:?}", found),
        }
        assert_eq!(catalog.position_of(asked), None);
    }
    let empty = ApiCatalog { resources: Vec::new() };
    assert!(matches!(empty.find_api_resource("Pod"), Err(DiscoveryError::UnknownKind(_))));
}

#[test]
fn only_ascii_letters_are_folded() {
    let catalog = ApiCatalog { resources: vec![resource("g", "v1", "Ünit", "units")] };
    assert_eq!(catalog.position_of("ÜNIT"), Some(0));
    assert_eq!(catalog.position_of("ünit"), None);
}
