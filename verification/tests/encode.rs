use celcat::encode::{bool_str, u64_decimal};
use celcat::entities::ResourceType;
use celcat::resources::ResourceListRequest;

#[test]
fn decimal_numerals() {
    assert_eq!(u64_decimal(0), "0");
    assert_eq!(u64_decimal(7), "7");
    assert_eq!(u64_decimal(10), "10");
    assert_eq!(u64_decimal(104), "104");
    assert_eq!(u64_decimal(1172982), "1172982");
    assert_eq!(u64_decimal(u64::MAX), "18446744073709551615");
}

#[test]
fn bool_wire_names() {
    assert_eq!(bool_str(true), "true");
    assert_eq!(bool_str(false), "false");
}

#[test]
fn resource_list_request_form_fields() {
    let req = ResourceListRequest {
        my_resources: false,
        search_term: "CHENES".to_owned(),
        page_size: 50,
        page_number: 0,
        res_type: ResourceType::Room,
    };
    assert_eq!(
        req.form(),
        vec![
            ("myResources".to_owned(), "false".to_owned()),
            ("searchTerm".to_owned(), "CHENES".to_owned()),
            ("pageSize".to_owned(), "50".to_owned()),
            ("pageNumber".to_owned(), "0".to_owned()),
            ("resType".to_owned(), "102".to_owned()),
        ]
    );
}
