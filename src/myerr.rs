use vstd::prelude::*;

verus! {

/// serde_json's error, carried opaquely by the library's own error.
#[verifier::external_type_specification]
#[verifier::external_body]
pub struct ExJsonError(serde_json::Error);

/// hyper's error, carried opaquely by the library's own error.
#[verifier::external_type_specification]
#[verifier::external_body]
pub struct ExHyperError(hyper::Error);

/// std's I/O error, carried opaquely by the library's own error.
#[verifier::external_type_specification]
#[verifier::external_body]
pub struct ExIoError(std::io::Error);

/// Possible errors returned from metadata retrieval.
#[derive(Debug)]
pub enum MetadataRetrievalError {
    /// Metadata was retrieved from AWS, but could not be parsed.
    JsonParseError(serde_json::Error),
    /// Error opening HTTP connection and sending request.
    HttpRequestError(hyper::Error),
    /// Error reading metadata in HTTP response.
    IoError(std::io::Error),
}

} // verus!
