use crate::myerr::MetadataRetrievalError;
use rusoto_signature::region::ParseRegionError;
use rusoto_signature::Region;
use serde_json::Value;
use std::str::FromStr;
use vstd::prelude::*;

verus! {

/// A parsed JSON value of serde_json, opaque to the proofs.
#[verifier::external_type_specification]
#[verifier::external_body]
pub struct ExJsonValue(serde_json::Value);

/// What `serde_json::from_str` reads a text into as a `Value`; `None` where it fails.
pub uninterp spec fn json_parse(text: Seq<char>) -> Option<Value>;

/// What `Value::get` finds under a string key: the member of that name of an object.
pub uninterp spec fn json_member(v: Value, key: Seq<char>) -> Option<Value>;

/// What `Value::as_str` gives: the characters of a JSON string.
pub uninterp spec fn json_string(v: Value) -> Option<Seq<char>>;

/// Relies on `serde_json::from_str` read into a `Value`: it fails where the text is not
/// one well-formed JSON value (or nests past serde_json's depth limit), and what it
/// gives depends on the text alone.
#[verifier::external_body]
fn parse_json(text: &str) -> (r: Result<Value, serde_json::Error>)
    ensures
        r is Ok <==> json_parse(text@) is Some,
        r matches Ok(v) ==> json_parse(text@) == Some(v),
{
    serde_json::from_str::<Value>(text)
}

/// Relies on `serde_json::Value::get` with a string key: the member of that name
/// when the value is an object holding it, nothing otherwise.
#[verifier::external_body]
fn member<'a>(v: &'a Value, key: &str) -> (r: Option<&'a Value>)
    ensures
        r is Some <==> json_member(*v, key@) is Some,
        r matches Some(m) ==> json_member(*v, key@) == Some(*m),
{
    v.get(key)
}

/// Relies on `serde_json::Value::as_str`: the text of a JSON string, nothing for
/// any other kind of value.
#[verifier::external_body]
fn string_value(v: &Value) -> (r: Option<&str>)
    ensures
        r is Some <==> json_string(*v) is Some,
        r matches Some(s) ==> json_string(*v) == Some(s@),
{
    v.as_str()
}

/// Relies on serde's `de::Error::missing_field` as serde_json implements it: the
/// error a decoder reports for an absent field.
#[verifier::external_body]
fn missing_field_error(field: &'static str) -> serde_json::Error {
    <serde_json::Error as serde::de::Error>::missing_field(field)
}

/// Relies on serde's `de::Error::custom` as serde_json implements it: the error
/// reported for a field whose value is not a string.
#[verifier::external_body]
fn not_a_string_error(field: &'static str) -> serde_json::Error {
    <serde_json::Error as serde::de::Error>::custom(
        format!("invalid type for field `{}`: expected a string", field),
    )
}

/// rusoto_signature's region enumeration: the catalog of known AWS regions.
#[verifier::external_type_specification]
pub struct ExRegion(rusoto_signature::Region);

/// rusoto_signature's error for a text that names no known region.
#[verifier::external_type_specification]
#[verifier::external_body]
pub struct ExParseRegionError(rusoto_signature::region::ParseRegionError);

/// What rusoto_signature's `Region::from_str` gives for a text; `None` where it fails.
pub uninterp spec fn region_parse(s: Seq<char>) -> Option<Region>;

/// The region whose code, or code without dashes, is exactly `s`, as rusoto_signature's catalog lists them.
pub open spec fn catalog_region(s: Seq<char>) -> Option<Region> {
    if s == "ap-east-1"@ || s == "apeast1"@ {
        Some(Region::ApEast1)
    } else if s == "ap-northeast-1"@ || s == "apnortheast1"@ {
        Some(Region::ApNortheast1)
    } else if s == "ap-northeast-2"@ || s == "apnortheast2"@ {
        Some(Region::ApNortheast2)
    } else if s == "ap-northeast-3"@ || s == "apnortheast3"@ {
        Some(Region::ApNortheast3)
    } else if s == "ap-south-1"@ || s == "apsouth1"@ {
        Some(Region::ApSouth1)
    } else if s == "ap-southeast-1"@ || s == "apsoutheast1"@ {
        Some(Region::ApSoutheast1)
    } else if s == "ap-southeast-2"@ || s == "apsoutheast2"@ {
        Some(Region::ApSoutheast2)
    } else if s == "ap-southeast-3"@ || s == "apsoutheast3"@ {
        Some(Region::ApSoutheast3)
    } else if s == "ca-central-1"@ || s == "cacentral1"@ {
        Some(Region::CaCentral1)
    } else if s == "eu-central-1"@ || s == "eucentral1"@ {
        Some(Region::EuCentral1)
    } else if s == "eu-west-1"@ || s == "euwest1"@ {
        Some(Region::EuWest1)
    } else if s == "eu-west-2"@ || s == "euwest2"@ {
        Some(Region::EuWest2)
    } else if s == "eu-west-3"@ || s == "euwest3"@ {
        Some(Region::EuWest3)
    } else if s == "eu-north-1"@ || s == "eunorth1"@ {
        Some(Region::EuNorth1)
    } else if s == "eu-south-1"@ || s == "eusouth1"@ {
        Some(Region::EuSouth1)
    } else if s == "me-south-1"@ || s == "mesouth1"@ {
        Some(Region::MeSouth1)
    } else if s == "sa-east-1"@ || s == "saeast1"@ {
        Some(Region::SaEast1)
    } else if s == "us-east-1"@ || s == "useast1"@ {
        Some(Region::UsEast1)
    } else if s == "us-east-2"@ || s == "useast2"@ {
        Some(Region::UsEast2)
    } else if s == "us-west-1"@ || s == "uswest1"@ {
        Some(Region::UsWest1)
    } else if s == "us-west-2"@ || s == "uswest2"@ {
        Some(Region::UsWest2)
    } else if s == "us-gov-east-1"@ || s == "usgoveast1"@ {
        Some(Region::UsGovEast1)
    } else if s == "us-gov-west-1"@ || s == "usgovwest1"@ {
        Some(Region::UsGovWest1)
    } else if s == "cn-north-1"@ || s == "cnnorth1"@ {
        Some(Region::CnNorth1)
    } else if s == "cn-northwest-1"@ || s == "cnnorthwest1"@ {
        Some(Region::CnNorthwest1)
    } else if s == "af-south-1"@ || s == "afsouth1"@ {
        Some(Region::AfSouth1)
    } else {
        None
    }
}

/// Whether every character of `s` is ASCII and none is an upper-case letter, so that
/// lower-casing leaves `s` as it is.
pub open spec fn is_lower_ascii(s: Seq<char>) -> bool {
    forall|i: int| 0 <= i < s.len() ==> (#[trigger] s[i] as u32) < 128 && !('A' <= s[i] && s[i] <= 'Z')
}

/// Relies on rusoto_signature's `FromStr for Region`: the text is lower-cased and looked
/// up among the catalog's codes, with or without their dashes, failing where none
/// matches; the result depends on the text alone.
#[verifier::external_body]
fn region_from_str(s: &str) -> (r: Result<Region, ParseRegionError>)
    ensures
        r is Ok <==> region_parse(s@) is Some,
        r matches Ok(g) ==> region_parse(s@) == Some(g),
        is_lower_ascii(s@) ==> (r is Ok <==> catalog_region(s@) is Some),
        is_lower_ascii(s@) && r is Ok ==> catalog_region(s@) == Some(r->Ok_0),
{
    Region::from_str(s)
}

/// The string under `key` in a decoded document, if there is one.
pub open spec fn value_field(doc: Value, key: Seq<char>) -> Option<Seq<char>> {
    match json_member(doc, key) {
        Some(m) => json_string(m),
        None => None,
    }
}

/// The string under `key` in the JSON document that `text` holds, if there is one.
pub open spec fn document_field(text: Seq<char>, key: Seq<char>) -> Option<Seq<char>> {
    match json_parse(text) {
        Some(doc) => value_field(doc, key),
        None => None,
    }
}

/// The document keys of the record's fields, in the order of [`InstanceMetadata::fields`].
pub open spec fn field_keys() -> Seq<Seq<char>> {
    seq![
        "privateIp"@,
        "availabilityZone"@,
        "instanceId"@,
        "instanceType"@,
        "accountId"@,
        "architecture"@,
        "imageId"@,
        "region"@,
    ]
}

/// Whether every modeled field is present in `text` as a string.
pub open spec fn has_all_fields(text: Seq<char>) -> bool {
    &&& document_field(text, field_keys()[0]) is Some
    &&& document_field(text, field_keys()[1]) is Some
    &&& document_field(text, field_keys()[2]) is Some
    &&& document_field(text, field_keys()[3]) is Some
    &&& document_field(text, field_keys()[4]) is Some
    &&& document_field(text, field_keys()[5]) is Some
    &&& document_field(text, field_keys()[6]) is Some
    &&& document_field(text, field_keys()[7]) is Some
}

/// The fields of the record that `text` decodes to, in the order of `field_keys`;
/// `None` where `text` does not decode.
pub open spec fn decoded_fields(text: Seq<char>) -> Option<Seq<Seq<char>>> {
    if has_all_fields(text) {
        Some(Seq::new(8, |i: int| document_field(text, field_keys()[i])->Some_0))
    } else {
        None
    }
}

/// Instance metadata decoded from the instance-identity document.
///
/// The private address and the region are kept as the document gave them and checked
/// only when asked for, so a record exists even where one of them is malformed.
#[derive(Debug)]
pub struct InstanceMetadata {
    private_ip: String,
    /// Availability zone, eg. `"us-west-2c"`.
    pub availability_zone: String,
    /// EC2 instance id, eg. `"i-0edd3671c0bb87981"`.
    pub instance_id: String,
    /// EC2 instance type, eg. `"t2.nano"`
    pub instance_type: String,
    /// EC2 account ID; a 12-digit number representing the AWS account, eg. `"123456789012"`
    pub account_id: String,
    architecture: String,
    /// Identifier for the Amazon Machine Image (AMI) this instance was launched from, eg. `"ami-f173dc91"`
    pub image_id: String,
    region: String,
}

impl InstanceMetadata {
    /// The record's eight strings, in the order of the document keys of `field_keys`:
    /// the model that the contracts speak of.
    pub closed spec fn fields(&self) -> Seq<Seq<char>> {
        seq![
            self.private_ip@,
            self.availability_zone@,
            self.instance_id@,
            self.instance_type@,
            self.account_id@,
            self.architecture@,
            self.image_id@,
            self.region@,
        ]
    }

    /// Retrieves the AWS Region that this instance is running in, eg. `Region::UsWest2`.
    pub fn region(&self) -> (r: Result<Region, ParseRegionError>)
        ensures
            r is Ok <==> region_parse(self.fields()[7]) is Some,
            r matches Ok(g) ==> region_parse(self.fields()[7]) == Some(g),
            is_lower_ascii(self.fields()[7]) ==> (r is Ok <==> catalog_region(self.fields()[7]) is Some),
            is_lower_ascii(self.fields()[7]) && r is Ok ==> catalog_region(self.fields()[7]) == Some(r->Ok_0),
    {
        region_from_str(self.region.as_str())
    }

    /// The private IP address as the document gave it, not yet checked.
    pub fn raw_private_ip(&self) -> (r: &str)
        ensures
            r@ == self.fields()[0],
    {
        self.private_ip.as_str()
    }

    /// Availability zone, eg. `"us-west-2c"`.
    pub fn availability_zone(&self) -> (r: &str)
        ensures
            r@ == self.fields()[1],
    {
        self.availability_zone.as_str()
    }

    /// EC2 instance id, eg. `"i-0edd3671c0bb87981"`.
    pub fn instance_id(&self) -> (r: &str)
        ensures
            r@ == self.fields()[2],
    {
        self.instance_id.as_str()
    }

    /// EC2 instance type, eg. `"t2.nano"`.
    pub fn instance_type(&self) -> (r: &str)
        ensures
            r@ == self.fields()[3],
    {
        self.instance_type.as_str()
    }

    /// EC2 account ID, eg. `"123456789012"`.
    pub fn account_id(&self) -> (r: &str)
        ensures
            r@ == self.fields()[4],
    {
        self.account_id.as_str()
    }

    /// CPU architecture of the instance, eg. `"x86_64"`.
    pub fn architecture(&self) -> (r: &str)
        ensures
            r@ == self.fields()[5],
    {
        self.architecture.as_str()
    }

    /// Identifier of the machine image the instance was launched from, eg. `"ami-f173dc91"`.
    pub fn image_id(&self) -> (r: &str)
        ensures
            r@ == self.fields()[6],
    {
        self.image_id.as_str()
    }

    /// The region code as the document gave it, not yet checked.
    pub fn raw_region(&self) -> (r: &str)
        ensures
            r@ == self.fields()[7],
    {
        self.region.as_str()
    }
}

/// Reads the string field `key` of a decoded document.
fn string_field(doc: &Value, key: &'static str) -> (r: Result<String, serde_json::Error>)
    ensures
        r is Ok <==> value_field(*doc, key@) is Some,
        r matches Ok(s) ==> value_field(*doc, key@) == Some(s@),
{
    match member(doc, key) {
        None => Err(missing_field_error(key)),
        Some(m) => match string_value(m) {
            Some(s) => Ok(s.to_owned()),
            None => Err(not_a_string_error(key)),
        },
    }
}

/// Decodes an instance-identity document.
///
/// The text must be a JSON object holding the eight modeled keys as strings; other keys
/// are ignored. Any other text gives `JsonParseError`.
pub fn parse_metadata(text: &str) -> (r: Result<InstanceMetadata, MetadataRetrievalError>)
    ensures
        r is Ok <==> decoded_fields(text@) is Some,
        r matches Ok(m) ==> decoded_fields(text@) == Some(m.fields()),
        r matches Err(e) ==> e is JsonParseError,
{
    let doc = match parse_json(text) {
        Ok(v) => v,
        Err(e) => return Err(MetadataRetrievalError::JsonParseError(e)),
    };
    let private_ip = match string_field(&doc, "privateIp") {
        Ok(s) => s,
        Err(e) => return Err(MetadataRetrievalError::JsonParseError(e)),
    };
    let availability_zone = match string_field(&doc, "availabilityZone") {
        Ok(s) => s,
        Err(e) => return Err(MetadataRetrievalError::JsonParseError(e)),
    };
    let instance_id = match string_field(&doc, "instanceId") {
        Ok(s) => s,
        Err(e) => return Err(MetadataRetrievalError::JsonParseError(e)),
    };
    let instance_type = match string_field(&doc, "instanceType") {
        Ok(s) => s,
        Err(e) => return Err(MetadataRetrievalError::JsonParseError(e)),
    };
    let account_id = match string_field(&doc, "accountId") {
        Ok(s) => s,
        Err(e) => return Err(MetadataRetrievalError::JsonParseError(e)),
    };
    let architecture = match string_field(&doc, "architecture") {
        Ok(s) => s,
        Err(e) => return Err(MetadataRetrievalError::JsonParseError(e)),
    };
    let image_id = match string_field(&doc, "imageId") {
        Ok(s) => s,
        Err(e) => return Err(MetadataRetrievalError::JsonParseError(e)),
    };
    let region = match string_field(&doc, "region") {
        Ok(s) => s,
        Err(e) => return Err(MetadataRetrievalError::JsonParseError(e)),
    };
    let m = InstanceMetadata {
        private_ip,
        availability_zone,
        instance_id,
        instance_type,
        account_id,
        architecture,
        image_id,
        region,
    };
    assert(decoded_fields(text@)->Some_0 =~= m.fields());
    Ok(m)
}

/// A document that holds all eight fields as strings decodes, and each field of the
/// record is the document's string under the matching key, character for character.
pub proof fn lemma_complete_document_decodes(text: Seq<char>)
    requires
        has_all_fields(text),
    ensures
        decoded_fields(text) is Some,
        forall|i: int|
            0 <= i < 8 ==> decoded_fields(text)->Some_0[i] == (#[trigger] document_field(
                text,
                field_keys()[i],
            ))->Some_0,
{
}

/// A text that is not well-formed JSON never decodes.
pub proof fn lemma_malformed_text_fails(text: Seq<char>)
    requires
        json_parse(text) is None,
    ensures
        decoded_fields(text) is None,
{
}

/// A JSON document lacking any one of the eight keys never decodes, whatever the
/// other keys hold.
pub proof fn lemma_missing_field_fails(text: Seq<char>, i: int)
    requires
        0 <= i < 8,
        json_parse(text) is Some,
        json_member(json_parse(text)->Some_0, field_keys()[i]) is None,
    ensures
        decoded_fields(text) is None,
{
}

/// Whether a text decodes, and to what, depends on the eight modeled fields alone: keys
/// beyond them neither make decoding fail nor reach the record.
pub proof fn lemma_other_keys_ignored(a: Seq<char>, b: Seq<char>)
    requires
        forall|i: int|
            0 <= i < 8 ==> #[trigger] document_field(a, field_keys()[i]) == document_field(
                b,
                field_keys()[i],
            ),
    ensures
        decoded_fields(a) == decoded_fields(b),
{
    assert(document_field(a, field_keys()[0]) == document_field(b, field_keys()[0]));
    assert(document_field(a, field_keys()[1]) == document_field(b, field_keys()[1]));
    assert(document_field(a, field_keys()[2]) == document_field(b, field_keys()[2]));
    assert(document_field(a, field_keys()[3]) == document_field(b, field_keys()[3]));
    assert(document_field(a, field_keys()[4]) == document_field(b, field_keys()[4]));
    assert(document_field(a, field_keys()[5]) == document_field(b, field_keys()[5]));
    assert(document_field(a, field_keys()[6]) == document_field(b, field_keys()[6]));
    assert(document_field(a, field_keys()[7]) == document_field(b, field_keys()[7]));
    if has_all_fields(a) {
        assert(decoded_fields(a)->Some_0 =~= decoded_fields(b)->Some_0);
    }
}

} // verus!
