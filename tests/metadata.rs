use aws_instance_metadata::metadata::parse_metadata;
use aws_instance_metadata::myerr::MetadataRetrievalError;
use rusoto_signature::Region;

const EXAMPLE_DOCUMENT: &'static str = r#"
    {
        "privateIp" : "172.30.0.60",
        "availabilityZone" : "us-west-2a",
        "devpayProductCodes" : null,
        "version" : "2010-08-31",
        "instanceId" : "i-0edd3671c0bb87981",
        "billingProducts" : null,
        "instanceType" : "t2.nano",
        "pendingTime" : "2017-03-19T16:32:58Z",
        "accountId" : "1234321",
        "architecture" : "x86_64",
        "kernelId" : null,
        "ramdiskId" : null,
        "imageId" : "ami-f173dc91",
        "region" : "us-west-2"
    }
"#;

const MINIMAL_DOCUMENT: &'static str = r#"{"privateIp":"172.30.0.60","availabilityZone":"us-west-2a","instanceId":"i-0edd3671c0bb87981","instanceType":"t2.nano","accountId":"1234321","architecture":"x86_64","imageId":"ami-f173dc91","region":"us-west-2"}"#;

fn with_region(region: &str) -> String {
    format!(
        r#"{{"privateIp":"10.0.0.1","availabilityZone":"a","instanceId":"i","instanceType":"t","accountId":"1","architecture":"arm64","imageId":"ami","region":"{}"}}"#,
        region
    )
}

fn is_parse_error(r: Result<aws_instance_metadata::metadata::InstanceMetadata, MetadataRetrievalError>) -> bool {
    matches!(r, Err(MetadataRetrievalError::JsonParseError(_)))
}

#[test]
fn parses_metadata_json() {
    let metadata = parse_metadata(EXAMPLE_DOCUMENT).unwrap();
    assert!(metadata.raw_private_ip() == "172.30.0.60");
    assert!(metadata.availability_zone == "us-west-2a");
    assert!(metadata.instance_id == "i-0edd3671c0bb87981");
    assert!(metadata.instance_type == "t2.nano");
    assert!(metadata.account_id == "1234321");
    assert!(metadata.architecture() == "x86_64");
    assert!(metadata.image_id == "ami-f173dc91");
    assert!(metadata.raw_region() == "us-west-2");
}

#[test]
fn provides_region_enum() {
    let metadata = parse_metadata(EXAMPLE_DOCUMENT).unwrap();
    assert!(metadata.region().unwrap() == Region::UsWest2);
}

#[test]
fn parse_error() {
    parse_metadata("{]").unwrap_err();
}

#[test]
fn minimal_document_scenario() {
    let metadata = parse_metadata(MINIMAL_DOCUMENT).unwrap();
    assert_eq!(metadata.instance_id(), "i-0edd3671c0bb87981");
    assert_eq!(metadata.raw_private_ip(), "172.30.0.60");
    assert!(metadata.region().unwrap() == Region::UsWest2);
}

#[test]
fn getters_return_fields_verbatim() {
    let text = r#"{"privateIp":" fe80::1 ","availabilityZone":"US-West-2A","instanceId":"I-ABC","instanceType":"t2.Nano","accountId":"0012","architecture":"","imageId":"ami-é","region":"Us-West-2"}"#;
    let m = parse_metadata(text).unwrap();
    assert_eq!(m.raw_private_ip(), " fe80::1 ");
    assert_eq!(m.availability_zone(), "US-West-2A");
    assert_eq!(m.instance_id(), "I-ABC");
    assert_eq!(m.instance_type(), "t2.Nano");
    assert_eq!(m.account_id(), "0012");
    assert_eq!(m.architecture(), "");
    assert_eq!(m.image_id(), "ami-\u{e9}");
    assert_eq!(m.raw_region(), "Us-West-2");
}

#[test]
fn malformed_text_is_parse_error() {
    assert!(is_parse_error(parse_metadata("{]")));
    assert!(is_parse_error(parse_metadata("")));
    assert!(is_parse_error(parse_metadata("{\"privateIp\": \"1.2.3.4\"")));
    assert!(is_parse_error(parse_metadata("not json")));
}

#[test]
fn non_object_is_parse_error() {
    assert!(is_parse_error(parse_metadata("[]")));
    assert!(is_parse_error(parse_metadata("\"us-west-2\"")));
    assert!(is_parse_error(parse_metadata("42")));
}

#[test]
fn each_missing_field_is_parse_error() {
    let keys = [
        "privateIp",
        "availabilityZone",
        "instanceId",
        "instanceType",
        "accountId",
        "architecture",
        "imageId",
        "region",
    ];
    for key in keys.iter() {
        let v: serde_json::Value = serde_json::from_str(MINIMAL_DOCUMENT).unwrap();
        let mut obj = v.as_object().unwrap().clone();
        obj.remove(*key);
        let text = serde_json::Value::Object(obj).to_string();
        assert!(is_parse_error(parse_metadata(&text)), "missing {}", key);
    }
}

#[test]
fn non_string_field_is_parse_error() {
    let text = MINIMAL_DOCUMENT.replace("\"1234321\"", "1234321");
    assert!(is_parse_error(parse_metadata(&text)));
    let text = MINIMAL_DOCUMENT.replace("\"x86_64\"", "null");
    assert!(is_parse_error(parse_metadata(&text)));
}

#[test]
fn extra_keys_are_ignored() {
    let plain = parse_metadata(MINIMAL_DOCUMENT).unwrap();
    let extended = parse_metadata(EXAMPLE_DOCUMENT).unwrap();
    assert_eq!(plain.raw_private_ip(), extended.raw_private_ip());
    assert_eq!(plain.availability_zone(), extended.availability_zone());
    assert_eq!(plain.instance_id(), extended.instance_id());
    assert_eq!(plain.instance_type(), extended.instance_type());
    assert_eq!(plain.account_id(), extended.account_id());
    assert_eq!(plain.architecture(), extended.architecture());
    assert_eq!(plain.image_id(), extended.image_id());
    assert_eq!(plain.raw_region(), extended.raw_region());
}

#[test]
fn bad_sub_fields_do_not_fail_decoding() {
    let text = with_region("mars-north-1").replace("10.0.0.1", "not-an-ip");
    let m = parse_metadata(&text).unwrap();
    assert_eq!(m.raw_private_ip(), "not-an-ip");
    assert!(m.region().is_err());
}

#[test]
fn known_regions_map_to_variants() {
    let cases = [
        ("us-east-1", Region::UsEast1),
        ("eu-west-1", Region::EuWest1),
        ("ap-southeast-2", Region::ApSoutheast2),
        ("us-gov-west-1", Region::UsGovWest1),
        ("cn-northwest-1", Region::CnNorthwest1),
        ("uswest2", Region::UsWest2),
    ];
    for (code, region) in cases.iter() {
        let m = parse_metadata(&with_region(code)).unwrap();
        assert!(m.region().unwrap() == *region, "{}", code);
    }
}

#[test]
fn upper_case_region_is_recognised() {
    let m = parse_metadata(&with_region("US-WEST-2")).unwrap();
    assert!(m.region().unwrap() == Region::UsWest2);
}

#[test]
fn unknown_region_is_region_error() {
    for code in ["", "us-west-9", "us_west_2", " us-west-2"].iter() {
        let m = parse_metadata(&with_region(code)).unwrap();
        assert!(m.region().is_err(), "{:?}", code);
    }
}
