//! The records of the Document AI service that hold no measurements: requests,
//! settings and the long-running operation.

use std::collections::HashMap;
use vstd::prelude::*;

verus! {

/// Parameters to control AutoML model prediction behavior.
#[derive(Clone, Debug, PartialEq, Eq)]
pub struct GoogleCloudDocumentaiV1beta2AutoMlParams {
    /// Resource name of the AutoML model.
    pub model: Option<String>,
}

impl Default for GoogleCloudDocumentaiV1beta2AutoMlParams {
    /// The record in which no field has a value.
    fn default() -> (r: GoogleCloudDocumentaiV1beta2AutoMlParams)
        ensures
            r == (GoogleCloudDocumentaiV1beta2AutoMlParams { model: None }),
    {
        GoogleCloudDocumentaiV1beta2AutoMlParams { model: None }
    }
}

/// Relationship between Entities.
#[derive(Clone, Debug, PartialEq, Eq)]
pub struct GoogleCloudDocumentaiV1beta2DocumentEntityRelation {
    /// Object entity id. In JSON: `objectId`.
    pub object_id: Option<String>,
    /// Relationship description.
    pub relation: Option<String>,
    /// Subject entity id. In JSON: `subjectId`.
    pub subject_id: Option<String>,
}

impl Default for GoogleCloudDocumentaiV1beta2DocumentEntityRelation {
    /// The record in which no field has a value.
    fn default() -> (r: GoogleCloudDocumentaiV1beta2DocumentEntityRelation)
        ensures
            r == (GoogleCloudDocumentaiV1beta2DocumentEntityRelation {
                object_id: None,
                relation: None,
                subject_id: None,
            }),
    {
        GoogleCloudDocumentaiV1beta2DocumentEntityRelation {
            object_id: None,
            relation: None,
            subject_id: None,
        }
    }
}

/// Detected break at the end of a Token.
#[derive(Clone, Debug, PartialEq, Eq)]
pub struct GoogleCloudDocumentaiV1beta2DocumentPageTokenDetectedBreak {
    /// Detected break type. In JSON: `type`.
    pub type_: Option<String>,
}

impl Default for GoogleCloudDocumentaiV1beta2DocumentPageTokenDetectedBreak {
    /// The record in which no field has a value.
    fn default() -> (r: GoogleCloudDocumentaiV1beta2DocumentPageTokenDetectedBreak)
        ensures
            r == (GoogleCloudDocumentaiV1beta2DocumentPageTokenDetectedBreak { type_: None }),
    {
        GoogleCloudDocumentaiV1beta2DocumentPageTokenDetectedBreak { type_: None }
    }
}

/// For a large document, sharding may be performed to produce several document
/// shards.
#[derive(Clone, Debug, PartialEq, Eq)]
pub struct GoogleCloudDocumentaiV1beta2DocumentShardInfo {
    /// Total number of shards. In JSON: `shardCount`.
    pub shard_count: Option<String>,
    /// The 0-based index of this shard. In JSON: `shardIndex`.
    pub shard_index: Option<String>,
    /// The index of the first character in Document.text in the overall
    /// document global text. In JSON: `textOffset`.
    pub text_offset: Option<String>,
}

impl Default for GoogleCloudDocumentaiV1beta2DocumentShardInfo {
    /// The record in which no field has a value.
    fn default() -> (r: GoogleCloudDocumentaiV1beta2DocumentShardInfo)
        ensures
            r == (GoogleCloudDocumentaiV1beta2DocumentShardInfo {
                shard_count: None,
                shard_index: None,
                text_offset: None,
            }),
    {
        GoogleCloudDocumentaiV1beta2DocumentShardInfo {
            shard_count: None,
            shard_index: None,
            text_offset: None,
        }
    }
}

/// Text reference indexing into the Document.text.
#[derive(Clone, Debug, PartialEq, Eq)]
pub struct GoogleCloudDocumentaiV1beta2DocumentTextAnchor {
    /// The text segments from the Document.text. In JSON: `textSegments`.
    pub text_segments: Option<Vec<GoogleCloudDocumentaiV1beta2DocumentTextAnchorTextSegment>>,
}

impl Default for GoogleCloudDocumentaiV1beta2DocumentTextAnchor {
    /// The record in which no field has a value.
    fn default() -> (r: GoogleCloudDocumentaiV1beta2DocumentTextAnchor)
        ensures
            r == (GoogleCloudDocumentaiV1beta2DocumentTextAnchor { text_segments: None }),
    {
        GoogleCloudDocumentaiV1beta2DocumentTextAnchor { text_segments: None }
    }
}

/// A text segment in the Document.text.
#[derive(Clone, Debug, PartialEq, Eq)]
pub struct GoogleCloudDocumentaiV1beta2DocumentTextAnchorTextSegment {
    /// TextSegment half open end UTF-8 char index in the Document.text. In
    /// JSON: `endIndex`.
    pub end_index: Option<String>,
    /// TextSegment start UTF-8 char index in the Document.text. In JSON:
    /// `startIndex`.
    pub start_index: Option<String>,
}

impl Default for GoogleCloudDocumentaiV1beta2DocumentTextAnchorTextSegment {
    /// The record in which no field has a value.
    fn default() -> (r: GoogleCloudDocumentaiV1beta2DocumentTextAnchorTextSegment)
        ensures
            r == (GoogleCloudDocumentaiV1beta2DocumentTextAnchorTextSegment {
                end_index: None,
                start_index: None,
            }),
    {
        GoogleCloudDocumentaiV1beta2DocumentTextAnchorTextSegment {
            end_index: None,
            start_index: None,
        }
    }
}

/// A translation of the text segment.
#[derive(Clone, Debug, PartialEq, Eq)]
pub struct GoogleCloudDocumentaiV1beta2DocumentTranslation {
    /// The BCP-47 language code, such as "en-US" or "sr-Latn". In JSON:
    /// `languageCode`.
    pub language_code: Option<String>,
    /// Provenance of the translation. In JSON: `textAnchor`.
    pub text_anchor: Option<GoogleCloudDocumentaiV1beta2DocumentTextAnchor>,
    /// Text translated into the target language. In JSON: `translatedText`.
    pub translated_text: Option<String>,
}

impl Default for GoogleCloudDocumentaiV1beta2DocumentTranslation {
    /// The record in which no field has a value.
    fn default() -> (r: GoogleCloudDocumentaiV1beta2DocumentTranslation)
        ensures
            r == (GoogleCloudDocumentaiV1beta2DocumentTranslation {
                language_code: None,
                text_anchor: None,
                translated_text: None,
            }),
    {
        GoogleCloudDocumentaiV1beta2DocumentTranslation {
            language_code: None,
            text_anchor: None,
            translated_text: None,
        }
    }
}

/// Parameters to control entity extraction behavior.
#[derive(Clone, Debug, PartialEq, Eq)]
pub struct GoogleCloudDocumentaiV1beta2EntityExtractionParams {
    /// Whether to enable entity extraction.
    pub enabled: Option<bool>,
    /// Model version of the entity extraction. In JSON: `modelVersion`.
    pub model_version: Option<String>,
}

impl Default for GoogleCloudDocumentaiV1beta2EntityExtractionParams {
    /// The record in which no field has a value.
    fn default() -> (r: GoogleCloudDocumentaiV1beta2EntityExtractionParams)
        ensures
            r == (GoogleCloudDocumentaiV1beta2EntityExtractionParams {
                enabled: None,
                model_version: None,
            }),
    {
        GoogleCloudDocumentaiV1beta2EntityExtractionParams {
            enabled: None,
            model_version: None,
        }
    }
}

/// Parameters to control form extraction behavior.
#[derive(Clone, Debug, PartialEq, Eq)]
pub struct GoogleCloudDocumentaiV1beta2FormExtractionParams {
    /// Whether to enable form extraction.
    pub enabled: Option<bool>,
    /// Reserved for future use. In JSON: `keyValuePairHints`.
    pub key_value_pair_hints: Option<Vec<GoogleCloudDocumentaiV1beta2KeyValuePairHint>>,
    /// Model version of the form extraction system. In JSON: `modelVersion`.
    pub model_version: Option<String>,
}

impl Default for GoogleCloudDocumentaiV1beta2FormExtractionParams {
    /// The record in which no field has a value.
    fn default() -> (r: GoogleCloudDocumentaiV1beta2FormExtractionParams)
        ensures
            r == (GoogleCloudDocumentaiV1beta2FormExtractionParams {
                enabled: None,
                key_value_pair_hints: None,
                model_version: None,
            }),
    {
        GoogleCloudDocumentaiV1beta2FormExtractionParams {
            enabled: None,
            key_value_pair_hints: None,
            model_version: None,
        }
    }
}

/// The Google Cloud Storage location where the output file will be written to.
#[derive(Clone, Debug, PartialEq, Eq)]
pub struct GoogleCloudDocumentaiV1beta2GcsDestination {
    /// no description provided
    pub uri: Option<String>,
}

impl Default for GoogleCloudDocumentaiV1beta2GcsDestination {
    /// The record in which no field has a value.
    fn default() -> (r: GoogleCloudDocumentaiV1beta2GcsDestination)
        ensures
            r == (GoogleCloudDocumentaiV1beta2GcsDestination { uri: None }),
    {
        GoogleCloudDocumentaiV1beta2GcsDestination { uri: None }
    }
}

/// The Google Cloud Storage location where the input file will be read from.
#[derive(Clone, Debug, PartialEq, Eq)]
pub struct GoogleCloudDocumentaiV1beta2GcsSource {
    /// no description provided
    pub uri: Option<String>,
}

impl Default for GoogleCloudDocumentaiV1beta2GcsSource {
    /// The record in which no field has a value.
    fn default() -> (r: GoogleCloudDocumentaiV1beta2GcsSource)
        ensures
            r == (GoogleCloudDocumentaiV1beta2GcsSource { uri: None }),
    {
        GoogleCloudDocumentaiV1beta2GcsSource { uri: None }
    }
}

/// The desired input location and metadata.
#[derive(Clone, Debug, PartialEq, Eq)]
pub struct GoogleCloudDocumentaiV1beta2InputConfig {
    /// Content in bytes, represented as a stream of bytes.
    pub contents: Option<String>,
    /// The Google Cloud Storage location to read the input from. In JSON:
    /// `gcsSource`.
    pub gcs_source: Option<GoogleCloudDocumentaiV1beta2GcsSource>,
    /// Required. In JSON: `mimeType`.
    pub mime_type: Option<String>,
}

impl Default for GoogleCloudDocumentaiV1beta2InputConfig {
    /// The record in which no field has a value.
    fn default() -> (r: GoogleCloudDocumentaiV1beta2InputConfig)
        ensures
            r == (GoogleCloudDocumentaiV1beta2InputConfig {
                contents: None,
                gcs_source: None,
                mime_type: None,
            }),
    {
        GoogleCloudDocumentaiV1beta2InputConfig {
            contents: None,
            gcs_source: None,
            mime_type: None,
        }
    }
}

/// Reserved for future use.
#[derive(Clone, Debug, PartialEq, Eq)]
pub struct GoogleCloudDocumentaiV1beta2KeyValuePairHint {
    /// The key text for the hint.
    pub key: Option<String>,
    /// Type of the value. In JSON: `valueTypes`.
    pub value_types: Option<Vec<String>>,
}

impl Default for GoogleCloudDocumentaiV1beta2KeyValuePairHint {
    /// The record in which no field has a value.
    fn default() -> (r: GoogleCloudDocumentaiV1beta2KeyValuePairHint)
        ensures
            r == (GoogleCloudDocumentaiV1beta2KeyValuePairHint {
                key: None,
                value_types: None,
            }),
    {
        GoogleCloudDocumentaiV1beta2KeyValuePairHint {
            key: None,
            value_types: None,
        }
    }
}

/// Parameters to control Optical Character Recognition (OCR) behavior.
#[derive(Clone, Debug, PartialEq, Eq)]
pub struct GoogleCloudDocumentaiV1beta2OcrParams {
    /// List of languages to use for OCR. In JSON: `languageHints`.
    pub language_hints: Option<Vec<String>>,
}

impl Default for GoogleCloudDocumentaiV1beta2OcrParams {
    /// The record in which no field has a value.
    fn default() -> (r: GoogleCloudDocumentaiV1beta2OcrParams)
        ensures
            r == (GoogleCloudDocumentaiV1beta2OcrParams { language_hints: None }),
    {
        GoogleCloudDocumentaiV1beta2OcrParams { language_hints: None }
    }
}

/// The desired output location and metadata.
#[derive(Clone, Debug, PartialEq, Eq)]
pub struct GoogleCloudDocumentaiV1beta2OutputConfig {
    /// The Google Cloud Storage location to write the output to. In JSON:
    /// `gcsDestination`.
    pub gcs_destination: Option<GoogleCloudDocumentaiV1beta2GcsDestination>,
    /// The max number of pages to include into each output Document shard JSON
    /// on Google Cloud Storage. In JSON: `pagesPerShard`.
    pub pages_per_shard: Option<i32>,
}

impl Default for GoogleCloudDocumentaiV1beta2OutputConfig {
    /// The record in which no field has a value.
    fn default() -> (r: GoogleCloudDocumentaiV1beta2OutputConfig)
        ensures
            r == (GoogleCloudDocumentaiV1beta2OutputConfig {
                gcs_destination: None,
                pages_per_shard: None,
            }),
    {
        GoogleCloudDocumentaiV1beta2OutputConfig {
            gcs_destination: None,
            pages_per_shard: None,
        }
    }
}

/// A vertex represents a 2D point in the image.
#[derive(Clone, Debug, PartialEq, Eq)]
pub struct GoogleCloudDocumentaiV1beta2Vertex {
    /// X coordinate.
    pub x: Option<i32>,
    /// Y coordinate.
    pub y: Option<i32>,
}

impl Default for GoogleCloudDocumentaiV1beta2Vertex {
    /// The record in which no field has a value.
    fn default() -> (r: GoogleCloudDocumentaiV1beta2Vertex)
        ensures
            r == (GoogleCloudDocumentaiV1beta2Vertex {
                x: None,
                y: None,
            }),
    {
        GoogleCloudDocumentaiV1beta2Vertex {
            x: None,
            y: None,
        }
    }
}

/// This resource represents a long-running operation that is the result of a
/// network API call.
#[derive(Clone, Debug, PartialEq, Eq)]
pub struct GoogleLongrunningOperation {
    /// If the value is `false`, it means the operation is still in progress.
    pub done: Option<bool>,
    /// The error result of the operation in case of failure or cancellation.
    pub error: Option<GoogleRpcStatus>,
    /// Service-specific metadata associated with the operation.
    pub metadata: Option<HashMap<String, String>>,
    /// The server-assigned name, which is only unique within the same service
    /// that originally returns it.
    pub name: Option<String>,
    /// The normal response of the operation in case of success.
    pub response: Option<HashMap<String, String>>,
}

impl Default for GoogleLongrunningOperation {
    /// The record in which no field has a value.
    fn default() -> (r: GoogleLongrunningOperation)
        ensures
            r == (GoogleLongrunningOperation {
                done: None,
                error: None,
                metadata: None,
                name: None,
                response: None,
            }),
    {
        GoogleLongrunningOperation {
            done: None,
            error: None,
            metadata: None,
            name: None,
            response: None,
        }
    }
}

/// The `Status` type defines a logical error model that is suitable for
/// different programming environments, including REST APIs and RPC APIs.
#[derive(Clone, Debug, PartialEq, Eq)]
pub struct GoogleRpcStatus {
    /// The status code, which should be an enum value of google.rpc.Code.
    pub code: Option<i32>,
    /// A list of messages that carry the error details.
    pub details: Option<Vec<HashMap<String, String>>>,
    /// A developer-facing error message, which should be in English.
    pub message: Option<String>,
}

impl Default for GoogleRpcStatus {
    /// The record in which no field has a value.
    fn default() -> (r: GoogleRpcStatus)
        ensures
            r == (GoogleRpcStatus {
                code: None,
                details: None,
                message: None,
            }),
    {
        GoogleRpcStatus {
            code: None,
            details: None,
            message: None,
        }
    }
}

} // verus!
