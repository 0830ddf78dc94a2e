//! The adapter for the remote license and copyright analyzer.
//!
//! A scan is a fixed sequence of requests: upload, wait until the upload is
//! ready, create a job, wait until the job has ended, read the licenses,
//! read the copyrights. The caller makes each request and reports what
//! came of it; what follows is decided here.
pub mod client;
pub mod parser;
pub mod poll;

use vstd::prelude::*;
use crate::scanner::fossology::client::{
    CopyrightResult, CopyrightResultView, FossologyClient, FossologyClientView, LicenseResult,
    LicenseResultView, UploadDetails,
};
use crate::scanner::fossology::parser::{
    merge_copyright_results, parse_license_results, with_copyrights, with_licenses,
};
use crate::scanner::fossology::poll::UploadProbe;
use crate::scanner::traits::{ScanError, ScanErrorView, ScanResult, ScanResultView};
use crate::text::{push_text, stripped_end};

verus! {

/// The remote analyzer and the folder that uploads go to.
pub struct FossologyScanner {
    pub client: FossologyClient,
    pub folder_id: i32,
}

impl FossologyScanner {
    /// The analyzer at `base_url`, with uploads going to the default folder 1.
    pub fn new(base_url: String, api_token: String) -> (scanner: Self)
        ensures
            scanner.folder_id == 1,
            scanner.client@ == (FossologyClientView {
                base_url: stripped_end(base_url@, "/"@),
                api_token: api_token@,
                username: "fossy"@,
                password: "fossy"@,
            }),
    {
        FossologyScanner { client: FossologyClient::new(base_url, api_token), folder_id: 1 }
    }

    /// The analyzer at `base_url`, with uploads going to the given folder.
    pub fn new_with_folder(base_url: String, api_token: String, folder_id: i32) -> (scanner: Self)
        ensures
            scanner.folder_id == folder_id,
            scanner.client@ == (FossologyClientView {
                base_url: stripped_end(base_url@, "/"@),
                api_token: api_token@,
                username: "fossy"@,
                password: "fossy"@,
            }),
    {
        FossologyScanner { client: FossologyClient::new(base_url, api_token), folder_id }
    }

    /// The name by which the analyzer is known.
    pub fn name(&self) -> (name: &'static str)
        ensures
            name@ == "fossology"@,
    {
        "fossology"
    }

    /// The description that accompanies the upload of a repository.
    pub fn upload_description(repo_path: &str) -> (description: String)
        ensures
            description@ == "Repository scan: "@ + repo_path@,
    {
        let mut description = String::from_str("Repository scan: ");
        push_text(&mut description, repo_path);
        description
    }
}

/// What an answer to a request for an upload's details means: with a
/// status of success, the upload is ready if the details hold its digests,
/// not yet if they do not, and unreadable if no details could be read;
/// a 503 says that the service is still processing; any other status is a
/// refusal.
pub fn classify_upload_probe(status: u16, details: Option<UploadDetails>) -> (probe: UploadProbe)
    ensures
        probe == if 200 <= status < 300 {
            match details {
                Some(d) => if d.hash is Some {
                    UploadProbe::Ready
                } else {
                    UploadProbe::NotHashed
                },
                None => UploadProbe::Unreadable,
            }
        } else if status == 503 {
            UploadProbe::Processing
        } else {
            UploadProbe::Refused
        },
{
    if 200 <= status && status < 300 {
        match details {
            Some(d) => {
                if d.hash.is_some() {
                    UploadProbe::Ready
                } else {
                    UploadProbe::NotHashed
                }
            },
            None => UploadProbe::Unreadable,
        }
    } else if status == 503 {
        UploadProbe::Processing
    } else {
        UploadProbe::Refused
    }
}

/// The request that a scan is waiting on.
#[derive(Clone, Copy, PartialEq, Eq, Structural)]
pub enum ScanStage {
    /// The repository is being uploaded to the folder.
    Uploading,
    /// The upload is being unpacked and indexed.
    AwaitingUpload { upload_id: i32 },
    /// A job for the upload is being created.
    CreatingJob { upload_id: i32 },
    /// The job is running.
    AwaitingJob { upload_id: i32, job_id: i32 },
    /// The license report is being read.
    FetchingLicenses { upload_id: i32 },
    /// The copyright report is being read.
    FetchingCopyrights { upload_id: i32 },
    /// The scan is over.
    Finished,
}

/// What came of the request that a scan was waiting on.
pub enum ScanReply {
    Uploaded(i32),
    UploadReady,
    JobCreated(i32),
    JobCompleted,
    Licenses(Vec<LicenseResult>),
    Copyrights(Vec<CopyrightResult>),
    Failed(ScanError),
}

/// Mathematical value of a [`ScanReply`].
pub enum ScanReplyView {
    Uploaded(i32),
    UploadReady,
    JobCreated(i32),
    JobCompleted,
    Licenses(Seq<LicenseResultView>),
    Copyrights(Seq<CopyrightResultView>),
    Failed(ScanErrorView),
}

impl View for ScanReply {
    type V = ScanReplyView;

    open spec fn view(&self) -> ScanReplyView {
        match self {
            ScanReply::Uploaded(id) => ScanReplyView::Uploaded(*id),
            ScanReply::UploadReady => ScanReplyView::UploadReady,
            ScanReply::JobCreated(id) => ScanReplyView::JobCreated(*id),
            ScanReply::JobCompleted => ScanReplyView::JobCompleted,
            ScanReply::Licenses(l) => ScanReplyView::Licenses(l.deep_view()),
            ScanReply::Copyrights(c) => ScanReplyView::Copyrights(c.deep_view()),
            ScanReply::Failed(e) => ScanReplyView::Failed(e@),
        }
    }
}

/// A scan by the remote analyzer: the request it is waiting on, and the
/// records gathered so far.
pub struct FossologyScan {
    pub stage: ScanStage,
    pub records: Vec<ScanResult>,
}

/// How a scan has ended, once it has: with its records or with an error.
pub enum ScanEnd {
    Running,
    Returned(Result<Vec<ScanResult>, ScanError>),
}

/// The stage that follows a reply, and whether the scan goes on: a reply
/// that answers the stage's request leads to the next request; a failure
/// ends the scan, and so does a reply that answers another request.
pub open spec fn next_stage(stage: ScanStage, reply: ScanReplyView) -> Option<ScanStage> {
    match (stage, reply) {
        (ScanStage::Uploading, ScanReplyView::Uploaded(upload_id)) => Some(
            ScanStage::AwaitingUpload { upload_id },
        ),
        (ScanStage::AwaitingUpload { upload_id }, ScanReplyView::UploadReady) => Some(
            ScanStage::CreatingJob { upload_id },
        ),
        (ScanStage::CreatingJob { upload_id }, ScanReplyView::JobCreated(job_id)) => Some(
            ScanStage::AwaitingJob { upload_id, job_id },
        ),
        (ScanStage::AwaitingJob { upload_id, job_id }, ScanReplyView::JobCompleted) => Some(
            ScanStage::FetchingLicenses { upload_id },
        ),
        (ScanStage::FetchingLicenses { upload_id }, ScanReplyView::Licenses(_)) => Some(
            ScanStage::FetchingCopyrights { upload_id },
        ),
        (ScanStage::FetchingCopyrights { upload_id }, ScanReplyView::Copyrights(_)) => Some(
            ScanStage::Finished,
        ),
        _ => None,
    }
}

/// The records after a reply: the licenses are grouped by file when they
/// arrive, and the copyrights are merged into them when they arrive.
pub open spec fn next_records(records: Seq<ScanResultView>, reply: ScanReplyView) -> Seq<
    ScanResultView,
> {
    match reply {
        ScanReplyView::Licenses(results) => with_licenses(Seq::empty(), results),
        ScanReplyView::Copyrights(results) => with_copyrights(records, results),
        _ => records,
    }
}

/// The error with which a scan ends on a reply that does not follow from
/// its stage.
pub open spec fn stage_fault(reply: ScanReplyView) -> ScanErrorView {
    match reply {
        ScanReplyView::Failed(e) => e,
        _ => ScanErrorView::Failed("Unexpected reply from Fossology"@),
    }
}

impl FossologyScan {
    /// A scan before its first request, the upload.
    pub fn new() -> (scan: Self)
        ensures
            scan.stage == ScanStage::Uploading,
            scan.records.deep_view() == Seq::<ScanResultView>::empty(),
    {
        let records: Vec<ScanResult> = Vec::new();
        assert(records.deep_view() =~= Seq::<ScanResultView>::empty());
        FossologyScan { stage: ScanStage::Uploading, records }
    }

    /// Takes the reply to the request of the current stage and moves to the
    /// next stage. The scan ends with its records after the copyrights have
    /// arrived, and with an error as soon as a request fails.
    pub fn advance(&mut self, reply: ScanReply) -> (end: ScanEnd)
        ensures
            match next_stage(old(self).stage, reply@) {
                Some(ScanStage::Finished) => {
                    &&& final(self).stage == ScanStage::Finished
                    &&& end matches ScanEnd::Returned(Ok(records))
                    &&& records.deep_view() == next_records(old(self).records.deep_view(), reply@)
                },
                Some(stage) => {
                    &&& final(self).stage == stage
                    &&& end is Running
                    &&& final(self).records.deep_view() == next_records(
                        old(self).records.deep_view(),
                        reply@,
                    )
                },
                None => {
                    &&& final(self).stage == ScanStage::Finished
                    &&& end matches ScanEnd::Returned(Err(e))
                    &&& e@ == stage_fault(reply@)
                },
            },
    {
        match (self.stage, reply) {
            (ScanStage::Uploading, ScanReply::Uploaded(upload_id)) => {
                self.stage = ScanStage::AwaitingUpload { upload_id };
                ScanEnd::Running
            },
            (ScanStage::AwaitingUpload { upload_id }, ScanReply::UploadReady) => {
                self.stage = ScanStage::CreatingJob { upload_id };
                ScanEnd::Running
            },
            (ScanStage::CreatingJob { upload_id }, ScanReply::JobCreated(job_id)) => {
                self.stage = ScanStage::AwaitingJob { upload_id, job_id };
                ScanEnd::Running
            },
            (ScanStage::AwaitingJob { upload_id, job_id }, ScanReply::JobCompleted) => {
                self.stage = ScanStage::FetchingLicenses { upload_id };
                ScanEnd::Running
            },
            (ScanStage::FetchingLicenses { upload_id }, ScanReply::Licenses(results)) => {
                self.records = parse_license_results(results);
                self.stage = ScanStage::FetchingCopyrights { upload_id };
                ScanEnd::Running
            },
            (ScanStage::FetchingCopyrights { upload_id }, ScanReply::Copyrights(results)) => {
                let mut records: Vec<ScanResult> = Vec::new();
                std::mem::swap(&mut records, &mut self.records);
                let merged = merge_copyright_results(records, results);
                self.stage = ScanStage::Finished;
                ScanEnd::Returned(Ok(merged))
            },
            (_, ScanReply::Failed(e)) => {
                self.stage = ScanStage::Finished;
                ScanEnd::Returned(Err(e))
            },
            (_, _) => {
                self.stage = ScanStage::Finished;
                ScanEnd::Returned(
                    Err(ScanError::Failed(String::from_str("Unexpected reply from Fossology"))),
                )
            },
        }
    }
}

} // verus!
