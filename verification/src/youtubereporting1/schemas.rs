//! The records that the YouTube Reporting service takes and gives.

use vstd::prelude::*;

verus! {

/// A generic empty message that you can re-use to avoid defining duplicated
/// empty messages in your APIs.
#[derive(Clone, Debug, PartialEq, Eq)]
pub struct Empty {
    _never_set: Option<bool>,
}

impl Empty {
    /// Whether the record holds nothing.
    pub closed spec fn is_unset(self) -> bool {
        self._never_set is None
    }
}

impl Default for Empty {
    /// The empty record.
    fn default() -> (r: Empty)
        ensures
            r.is_unset(),
    {
        Empty { _never_set: None }
    }
}

/// A part of the description of stored media.
#[derive(Clone, Debug, PartialEq, Eq)]
pub struct GdataBlobstore2Info {
    /// The field `blobGeneration`.
    pub blob_generation: Option<String>,
    /// The field `blobId`.
    pub blob_id: Option<String>,
    /// The field `downloadReadHandle`.
    pub download_read_handle: Option<String>,
    /// The field `readToken`.
    pub read_token: Option<String>,
    /// The field `uploadMetadataContainer`.
    pub upload_metadata_container: Option<String>,
}

impl Default for GdataBlobstore2Info {
    /// The record in which no field has a value.
    fn default() -> (r: GdataBlobstore2Info)
        ensures
            r == (GdataBlobstore2Info {
                blob_generation: None,
                blob_id: None,
                download_read_handle: None,
                read_token: None,
                upload_metadata_container: None,
            }),
    {
        GdataBlobstore2Info {
            blob_generation: None,
            blob_id: None,
            download_read_handle: None,
            read_token: None,
            upload_metadata_container: None,
        }
    }
}

/// A part of the description of stored media.
#[derive(Clone, Debug, PartialEq, Eq)]
pub struct GdataCompositeMedia {
    /// The field `blobRef`.
    pub blob_ref: Option<String>,
    /// The field `blobstore2Info`.
    pub blobstore2_info: Option<GdataBlobstore2Info>,
    /// The field `cosmoBinaryReference`.
    pub cosmo_binary_reference: Option<String>,
    /// The field `crc32cHash`.
    pub crc32c_hash: Option<u32>,
    /// The field `inline`.
    pub inline: Option<String>,
    /// The field `length`.
    pub length: Option<String>,
    /// The field `md5Hash`.
    pub md5_hash: Option<String>,
    /// The field `objectId`.
    pub object_id: Option<GdataObjectId>,
    /// The field `path`.
    pub path: Option<String>,
    /// The field `referenceType`.
    pub reference_type: Option<String>,
    /// The field `sha1Hash`.
    pub sha1_hash: Option<String>,
}

impl Default for GdataCompositeMedia {
    /// The record in which no field has a value.
    fn default() -> (r: GdataCompositeMedia)
        ensures
            r == (GdataCompositeMedia {
                blob_ref: None,
                blobstore2_info: None,
                cosmo_binary_reference: None,
                crc32c_hash: None,
                inline: None,
                length: None,
                md5_hash: None,
                object_id: None,
                path: None,
                reference_type: None,
                sha1_hash: None,
            }),
    {
        GdataCompositeMedia {
            blob_ref: None,
            blobstore2_info: None,
            cosmo_binary_reference: None,
            crc32c_hash: None,
            inline: None,
            length: None,
            md5_hash: None,
            object_id: None,
            path: None,
            reference_type: None,
            sha1_hash: None,
        }
    }
}

/// A part of the description of stored media.
#[derive(Clone, Debug, PartialEq, Eq)]
pub struct GdataContentTypeInfo {
    /// The field `bestGuess`.
    pub best_guess: Option<String>,
    /// The field `fromBytes`.
    pub from_bytes: Option<String>,
    /// The field `fromFileName`.
    pub from_file_name: Option<String>,
    /// The field `fromHeader`.
    pub from_header: Option<String>,
    /// The field `fromUrlPath`.
    pub from_url_path: Option<String>,
}

impl Default for GdataContentTypeInfo {
    /// The record in which no field has a value.
    fn default() -> (r: GdataContentTypeInfo)
        ensures
            r == (GdataContentTypeInfo {
                best_guess: None,
                from_bytes: None,
                from_file_name: None,
                from_header: None,
                from_url_path: None,
            }),
    {
        GdataContentTypeInfo {
            best_guess: None,
            from_bytes: None,
            from_file_name: None,
            from_header: None,
            from_url_path: None,
        }
    }
}

/// A part of the description of stored media.
#[derive(Clone, Debug, PartialEq, Eq)]
pub struct GdataDiffChecksumsResponse {
    /// The field `checksumsLocation`.
    pub checksums_location: Option<GdataCompositeMedia>,
    /// The field `chunkSizeBytes`.
    pub chunk_size_bytes: Option<String>,
    /// The field `objectLocation`.
    pub object_location: Option<GdataCompositeMedia>,
    /// The field `objectSizeBytes`.
    pub object_size_bytes: Option<String>,
    /// The field `objectVersion`.
    pub object_version: Option<String>,
}

impl Default for GdataDiffChecksumsResponse {
    /// The record in which no field has a value.
    fn default() -> (r: GdataDiffChecksumsResponse)
        ensures
            r == (GdataDiffChecksumsResponse {
                checksums_location: None,
                chunk_size_bytes: None,
                object_location: None,
                object_size_bytes: None,
                object_version: None,
            }),
    {
        GdataDiffChecksumsResponse {
            checksums_location: None,
            chunk_size_bytes: None,
            object_location: None,
            object_size_bytes: None,
            object_version: None,
        }
    }
}

/// A part of the description of stored media.
#[derive(Clone, Debug, PartialEq, Eq)]
pub struct GdataDiffDownloadResponse {
    /// The field `objectLocation`.
    pub object_location: Option<GdataCompositeMedia>,
}

impl Default for GdataDiffDownloadResponse {
    /// The record in which no field has a value.
    fn default() -> (r: GdataDiffDownloadResponse)
        ensures
            r == (GdataDiffDownloadResponse { object_location: None }),
    {
        GdataDiffDownloadResponse { object_location: None }
    }
}

/// A part of the description of stored media.
#[derive(Clone, Debug, PartialEq, Eq)]
pub struct GdataDiffUploadRequest {
    /// The field `checksumsInfo`.
    pub checksums_info: Option<GdataCompositeMedia>,
    /// The field `objectInfo`.
    pub object_info: Option<GdataCompositeMedia>,
    /// The field `objectVersion`.
    pub object_version: Option<String>,
}

impl Default for GdataDiffUploadRequest {
    /// The record in which no field has a value.
    fn default() -> (r: GdataDiffUploadRequest)
        ensures
            r == (GdataDiffUploadRequest {
                checksums_info: None,
                object_info: None,
                object_version: None,
            }),
    {
        GdataDiffUploadRequest {
            checksums_info: None,
            object_info: None,
            object_version: None,
        }
    }
}

/// A part of the description of stored media.
#[derive(Clone, Debug, PartialEq, Eq)]
pub struct GdataDiffUploadResponse {
    /// The field `objectVersion`.
    pub object_version: Option<String>,
    /// The field `originalObject`.
    pub original_object: Option<GdataCompositeMedia>,
}

impl Default for GdataDiffUploadResponse {
    /// The record in which no field has a value.
    fn default() -> (r: GdataDiffUploadResponse)
        ensures
            r == (GdataDiffUploadResponse {
                object_version: None,
                original_object: None,
            }),
    {
        GdataDiffUploadResponse {
            object_version: None,
            original_object: None,
        }
    }
}

/// A part of the description of stored media.
#[derive(Clone, Debug, PartialEq, Eq)]
pub struct GdataDiffVersionResponse {
    /// The field `objectSizeBytes`.
    pub object_size_bytes: Option<String>,
    /// The field `objectVersion`.
    pub object_version: Option<String>,
}

impl Default for GdataDiffVersionResponse {
    /// The record in which no field has a value.
    fn default() -> (r: GdataDiffVersionResponse)
        ensures
            r == (GdataDiffVersionResponse {
                object_size_bytes: None,
                object_version: None,
            }),
    {
        GdataDiffVersionResponse {
            object_size_bytes: None,
            object_version: None,
        }
    }
}

/// A part of the description of stored media.
#[derive(Clone, Debug, PartialEq, Eq)]
pub struct GdataDownloadParameters {
    /// The field `allowGzipCompression`.
    pub allow_gzip_compression: Option<bool>,
    /// The field `ignoreRange`.
    pub ignore_range: Option<bool>,
}

impl Default for GdataDownloadParameters {
    /// The record in which no field has a value.
    fn default() -> (r: GdataDownloadParameters)
        ensures
            r == (GdataDownloadParameters {
                allow_gzip_compression: None,
                ignore_range: None,
            }),
    {
        GdataDownloadParameters {
            allow_gzip_compression: None,
            ignore_range: None,
        }
    }
}

/// A part of the description of stored media.
#[derive(Clone, Debug, PartialEq, Eq)]
pub struct GdataMedia {
    /// The field `algorithm`.
    pub algorithm: Option<String>,
    /// The field `bigstoreObjectRef`.
    pub bigstore_object_ref: Option<String>,
    /// The field `blobRef`.
    pub blob_ref: Option<String>,
    /// The field `blobstore2Info`.
    pub blobstore2_info: Option<GdataBlobstore2Info>,
    /// The field `compositeMedia`.
    pub composite_media: Option<Vec<GdataCompositeMedia>>,
    /// The field `contentType`.
    pub content_type: Option<String>,
    /// The field `contentTypeInfo`.
    pub content_type_info: Option<GdataContentTypeInfo>,
    /// The field `cosmoBinaryReference`.
    pub cosmo_binary_reference: Option<String>,
    /// The field `crc32cHash`.
    pub crc32c_hash: Option<u32>,
    /// The field `diffChecksumsResponse`.
    pub diff_checksums_response: Option<GdataDiffChecksumsResponse>,
    /// The field `diffDownloadResponse`.
    pub diff_download_response: Option<GdataDiffDownloadResponse>,
    /// The field `diffUploadRequest`.
    pub diff_upload_request: Option<GdataDiffUploadRequest>,
    /// The field `diffUploadResponse`.
    pub diff_upload_response: Option<GdataDiffUploadResponse>,
    /// The field `diffVersionResponse`.
    pub diff_version_response: Option<GdataDiffVersionResponse>,
    /// The field `downloadParameters`.
    pub download_parameters: Option<GdataDownloadParameters>,
    /// The field `filename`.
    pub filename: Option<String>,
    /// The field `hash`.
    pub hash: Option<String>,
    /// The field `hashVerified`.
    pub hash_verified: Option<bool>,
    /// The field `inline`.
    pub inline: Option<String>,
    /// The field `isPotentialRetry`.
    pub is_potential_retry: Option<bool>,
    /// The field `length`.
    pub length: Option<String>,
    /// The field `md5Hash`.
    pub md5_hash: Option<String>,
    /// The field `mediaId`.
    pub media_id: Option<String>,
    /// The field `objectId`.
    pub object_id: Option<GdataObjectId>,
    /// The field `path`.
    pub path: Option<String>,
    /// The field `referenceType`.
    pub reference_type: Option<String>,
    /// The field `sha1Hash`.
    pub sha1_hash: Option<String>,
    /// The field `sha256Hash`.
    pub sha256_hash: Option<String>,
    /// The field `timestamp`.
    pub timestamp: Option<String>,
    /// The field `token`.
    pub token: Option<String>,
}

impl Default for GdataMedia {
    /// The record in which no field has a value.
    fn default() -> (r: GdataMedia)
        ensures
            r == (GdataMedia {
                algorithm: None,
                bigstore_object_ref: None,
                blob_ref: None,
                blobstore2_info: None,
                composite_media: None,
                content_type: None,
                content_type_info: None,
                cosmo_binary_reference: None,
                crc32c_hash: None,
                diff_checksums_response: None,
                diff_download_response: None,
                diff_upload_request: None,
                diff_upload_response: None,
                diff_version_response: None,
                download_parameters: None,
                filename: None,
                hash: None,
                hash_verified: None,
                inline: None,
                is_potential_retry: None,
                length: None,
                md5_hash: None,
                media_id: None,
                object_id: None,
                path: None,
                reference_type: None,
                sha1_hash: None,
                sha256_hash: None,
                timestamp: None,
                token: None,
            }),
    {
        GdataMedia {
            algorithm: None,
            bigstore_object_ref: None,
            blob_ref: None,
            blobstore2_info: None,
            composite_media: None,
            content_type: None,
            content_type_info: None,
            cosmo_binary_reference: None,
            crc32c_hash: None,
            diff_checksums_response: None,
            diff_download_response: None,
            diff_upload_request: None,
            diff_upload_response: None,
            diff_version_response: None,
            download_parameters: None,
            filename: None,
            hash: None,
            hash_verified: None,
            inline: None,
            is_potential_retry: None,
            length: None,
            md5_hash: None,
            media_id: None,
            object_id: None,
            path: None,
            reference_type: None,
            sha1_hash: None,
            sha256_hash: None,
            timestamp: None,
            token: None,
        }
    }
}

/// A part of the description of stored media.
#[derive(Clone, Debug, PartialEq, Eq)]
pub struct GdataObjectId {
    /// The field `bucketName`.
    pub bucket_name: Option<String>,
    /// The field `generation`.
    pub generation: Option<String>,
    /// The field `objectName`.
    pub object_name: Option<String>,
}

impl Default for GdataObjectId {
    /// The record in which no field has a value.
    fn default() -> (r: GdataObjectId)
        ensures
            r == (GdataObjectId {
                bucket_name: None,
                generation: None,
                object_name: None,
            }),
    {
        GdataObjectId {
            bucket_name: None,
            generation: None,
            object_name: None,
        }
    }
}

/// A job creating reports of a specific type.
#[derive(Clone, Debug, PartialEq, Eq)]
pub struct Job {
    /// The creation date/time of the job. In JSON: `createTime`.
    pub create_time: Option<String>,
    /// The date/time when this job will expire/expired. In JSON: `expireTime`.
    pub expire_time: Option<String>,
    /// The server-generated ID of the job (max. 40 characters).
    pub id: Option<String>,
    /// The name of the job (max. 100 characters).
    pub name: Option<String>,
    /// The type of reports this job creates. In JSON: `reportTypeId`.
    pub report_type_id: Option<String>,
    /// True if this a system-managed job that cannot be modified by the user;
    /// otherwise false. In JSON: `systemManaged`.
    pub system_managed: Option<bool>,
}

impl Default for Job {
    /// The record in which no field has a value.
    fn default() -> (r: Job)
        ensures
            r == (Job {
                create_time: None,
                expire_time: None,
                id: None,
                name: None,
                report_type_id: None,
                system_managed: None,
            }),
    {
        Job {
            create_time: None,
            expire_time: None,
            id: None,
            name: None,
            report_type_id: None,
            system_managed: None,
        }
    }
}

/// Response message for ReportingService.ListJobs.
#[derive(Clone, Debug, PartialEq, Eq)]
pub struct ListJobsResponse {
    /// The list of jobs.
    pub jobs: Option<Vec<Job>>,
    /// A token to retrieve next page of results. In JSON: `nextPageToken`.
    pub next_page_token: Option<String>,
}

impl Default for ListJobsResponse {
    /// The record in which no field has a value.
    fn default() -> (r: ListJobsResponse)
        ensures
            r == (ListJobsResponse {
                jobs: None,
                next_page_token: None,
            }),
    {
        ListJobsResponse {
            jobs: None,
            next_page_token: None,
        }
    }
}

/// Response message for ReportingService.ListReportTypes.
#[derive(Clone, Debug, PartialEq, Eq)]
pub struct ListReportTypesResponse {
    /// A token to retrieve next page of results. In JSON: `nextPageToken`.
    pub next_page_token: Option<String>,
    /// The list of report types. In JSON: `reportTypes`.
    pub report_types: Option<Vec<ReportType>>,
}

impl Default for ListReportTypesResponse {
    /// The record in which no field has a value.
    fn default() -> (r: ListReportTypesResponse)
        ensures
            r == (ListReportTypesResponse {
                next_page_token: None,
                report_types: None,
            }),
    {
        ListReportTypesResponse {
            next_page_token: None,
            report_types: None,
        }
    }
}

/// Response message for ReportingService.ListReports.
#[derive(Clone, Debug, PartialEq, Eq)]
pub struct ListReportsResponse {
    /// A token to retrieve next page of results. In JSON: `nextPageToken`.
    pub next_page_token: Option<String>,
    /// The list of report types.
    pub reports: Option<Vec<Report>>,
}

impl Default for ListReportsResponse {
    /// The record in which no field has a value.
    fn default() -> (r: ListReportsResponse)
        ensures
            r == (ListReportsResponse {
                next_page_token: None,
                reports: None,
            }),
    {
        ListReportsResponse {
            next_page_token: None,
            reports: None,
        }
    }
}

/// A report's metadata including the URL from which the report itself can be
/// downloaded.
#[derive(Clone, Debug, PartialEq, Eq)]
pub struct Report {
    /// The date/time when this report was created. In JSON: `createTime`.
    pub create_time: Option<String>,
    /// The URL from which the report can be downloaded (max. 1000 characters).
    /// In JSON: `downloadUrl`.
    pub download_url: Option<String>,
    /// The end of the time period that the report instance covers. In JSON:
    /// `endTime`.
    pub end_time: Option<String>,
    /// The server-generated ID of the report.
    pub id: Option<String>,
    /// The date/time when the job this report belongs to will expire/expired.
    /// In JSON: `jobExpireTime`.
    pub job_expire_time: Option<String>,
    /// The ID of the job that created this report. In JSON: `jobId`.
    pub job_id: Option<String>,
    /// The start of the time period that the report instance covers. In JSON:
    /// `startTime`.
    pub start_time: Option<String>,
}

impl Default for Report {
    /// The record in which no field has a value.
    fn default() -> (r: Report)
        ensures
            r == (Report {
                create_time: None,
                download_url: None,
                end_time: None,
                id: None,
                job_expire_time: None,
                job_id: None,
                start_time: None,
            }),
    {
        Report {
            create_time: None,
            download_url: None,
            end_time: None,
            id: None,
            job_expire_time: None,
            job_id: None,
            start_time: None,
        }
    }
}

/// A report type.
#[derive(Clone, Debug, PartialEq, Eq)]
pub struct ReportType {
    /// The date/time when this report type was/will be deprecated. In JSON:
    /// `deprecateTime`.
    pub deprecate_time: Option<String>,
    /// The ID of the report type (max. 100 characters).
    pub id: Option<String>,
    /// The name of the report type (max. 100 characters).
    pub name: Option<String>,
    /// True if this a system-managed report type; otherwise false. In JSON:
    /// `systemManaged`.
    pub system_managed: Option<bool>,
}

impl Default for ReportType {
    /// The record in which no field has a value.
    fn default() -> (r: ReportType)
        ensures
            r == (ReportType {
                deprecate_time: None,
                id: None,
                name: None,
                system_managed: None,
            }),
    {
        ReportType {
            deprecate_time: None,
            id: None,
            name: None,
            system_managed: None,
        }
    }
}

} // verus!
