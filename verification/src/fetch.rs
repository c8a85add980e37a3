//! Media fetch: where a download is written, and the steps that lead from a
//! locator and a title to the written file's path.
//!
//! The library decides; the caller acts. A [`FetchStep`] names what the caller
//! has to do next (look up the user's downloads, create the directory, move
//! the media into the file) or holds the fetch's result. The caller does it
//! and reports how it went to [`advance`], which gives the next step.

use crate::paths::{display_path, join_path, joined_path, lossy_text, path_bytes};
use crate::resolver::{
    describe_resolver_error, handle_video_id, locator_video_id, resolve_locator,
};
use rusty_ytdl::{Video, VideoError};
use std::path::PathBuf;
use vstd::prelude::*;

verus! {

/// The directory under the user's downloads that holds every fetched file.
pub const DOWNLOAD_SUBDIR: &'static str = "Youtube-Downloader";

/// The extension given to every fetched file.
pub const OUTPUT_EXTENSION: &'static str = "mp4";

/// Why a fetch wrote no file.
#[derive(Debug, PartialEq, Eq)]
pub enum FetchError {
    /// The locator names nothing the resolver can fetch; holds its diagnostic.
    InvalidSource(String),
    /// The platform could not say where the user's downloads are.
    NoDownloadLocation,
    /// The download directory could not be created.
    DirectoryCreation(String),
    /// Resolving or moving the media failed.
    Download(String),
}

/// What a [`FetchError`] holds.
pub enum FetchErrorView {
    InvalidSource(Seq<char>),
    NoDownloadLocation,
    DirectoryCreation(Seq<char>),
    Download(Seq<char>),
}

impl View for FetchError {
    type V = FetchErrorView;

    open spec fn view(&self) -> FetchErrorView {
        match *self {
            FetchError::InvalidSource(d) => FetchErrorView::InvalidSource(d@),
            FetchError::NoDownloadLocation => FetchErrorView::NoDownloadLocation,
            FetchError::DirectoryCreation(d) => FetchErrorView::DirectoryCreation(d@),
            FetchError::Download(d) => FetchErrorView::Download(d@),
        }
    }
}

/// A resolved media item and the title that its file will be named after.
#[derive(Debug, PartialEq)]
pub struct ResolvedSource {
    /// The handle through which the media is fetched.
    pub video: Video,
    /// The title, as the caller gave it.
    pub title: String,
}

/// What a [`ResolvedSource`] holds.
pub struct ResolvedSourceView {
    pub video: Video,
    pub title: Seq<char>,
}

impl View for ResolvedSource {
    type V = ResolvedSourceView;

    open spec fn view(&self) -> ResolvedSourceView {
        ResolvedSourceView { video: self.video, title: self.title@ }
    }
}

/// A resolved media item and the two paths of its download.
#[derive(Debug, PartialEq)]
pub struct DownloadPlan {
    /// The handle through which the media is fetched.
    pub video: Video,
    /// The directory that must exist before the transfer.
    pub directory: PathBuf,
    /// The file that the transfer writes.
    pub file: PathBuf,
}

/// What a [`DownloadPlan`] holds: the handle, and the bytes of both paths.
pub struct DownloadPlanView {
    pub video: Video,
    pub directory: Seq<u8>,
    pub file: Seq<u8>,
}

impl View for DownloadPlan {
    type V = DownloadPlanView;

    open spec fn view(&self) -> DownloadPlanView {
        DownloadPlanView {
            video: self.video,
            directory: path_bytes(self.directory),
            file: path_bytes(self.file),
        }
    }
}

/// Where a fetch stands.
#[derive(Debug, PartialEq)]
pub enum FetchStep {
    /// The caller asks the platform for the user's download directory.
    LocateDownloads(ResolvedSource),
    /// The caller creates `directory`, with any missing ancestors.
    CreateDirectory(DownloadPlan),
    /// The caller moves the media of `video` into `file`.
    Transfer(DownloadPlan),
    /// The fetch is over: the written file's path, or the error.
    Finish(Result<String, FetchError>),
}

/// What a [`FetchStep`] holds.
pub enum FetchStepView {
    LocateDownloads(ResolvedSourceView),
    CreateDirectory(DownloadPlanView),
    Transfer(DownloadPlanView),
    Finish(Result<Seq<char>, FetchErrorView>),
}

impl View for FetchStep {
    type V = FetchStepView;

    open spec fn view(&self) -> FetchStepView {
        match *self {
            FetchStep::LocateDownloads(source) => FetchStepView::LocateDownloads(source@),
            FetchStep::CreateDirectory(plan) => FetchStepView::CreateDirectory(plan@),
            FetchStep::Transfer(plan) => FetchStepView::Transfer(plan@),
            FetchStep::Finish(Ok(path)) => FetchStepView::Finish(Ok(path@)),
            FetchStep::Finish(Err(error)) => FetchStepView::Finish(Err(error@)),
        }
    }
}

/// What the caller reports after doing what a step asked for.
#[derive(Debug, PartialEq)]
pub enum FetchReport {
    /// The platform's answer to the lookup: the download directory, or none.
    Downloads(Option<PathBuf>),
    /// The directory was created, or the media was moved into the file.
    Completed,
    /// Creating the directory or moving the media failed; holds the diagnostic.
    Failed(String),
}

/// What a [`FetchReport`] holds.
pub enum FetchReportView {
    Downloads(Option<Seq<u8>>),
    Completed,
    Failed(Seq<char>),
}

impl View for FetchReport {
    type V = FetchReportView;

    open spec fn view(&self) -> FetchReportView {
        match *self {
            FetchReport::Downloads(Some(base)) => FetchReportView::Downloads(
                Some(path_bytes(base)),
            ),
            FetchReport::Downloads(None) => FetchReportView::Downloads(None),
            FetchReport::Completed => FetchReportView::Completed,
            FetchReport::Failed(d) => FetchReportView::Failed(d@),
        }
    }
}

/// The name of the file written for a title: the title as it is, a dot, and
/// the extension.
pub open spec fn output_file_name_of(title: Seq<char>) -> Seq<char> {
    title + "."@ + OUTPUT_EXTENSION@
}

/// The download directory: the fixed subdirectory, joined to the user's
/// downloads.
pub open spec fn download_directory_of(downloads: Seq<u8>) -> Seq<u8> {
    joined_path(downloads, DOWNLOAD_SUBDIR@)
}

/// The file written for a title: its file name, joined to the download
/// directory.
pub open spec fn download_file_of(downloads: Seq<u8>, title: Seq<char>) -> Seq<u8> {
    joined_path(download_directory_of(downloads), output_file_name_of(title))
}

/// The step that follows the lookup: without a downloads location the fetch
/// ends, with one the directory is to be created.
pub open spec fn planned_step(video: Video, downloads: Option<Seq<u8>>, title: Seq<char>)
    -> FetchStepView {
    match downloads {
        None => FetchStepView::Finish(Err(FetchErrorView::NoDownloadLocation)),
        Some(base) => FetchStepView::CreateDirectory(
            DownloadPlanView {
                video,
                directory: download_directory_of(base),
                file: download_file_of(base, title),
            },
        ),
    }
}

/// The first step of a fetch, given what the resolver made of the locator:
/// the handle, or the diagnostic of its failure. An unresolved locator ends
/// the fetch with `InvalidSource`, a resolved one leads to the lookup of the
/// downloads location.
pub open spec fn first_step(resolved: Result<Video, Seq<char>>, title: Seq<char>)
    -> FetchStepView {
    match resolved {
        Err(diagnostic) => FetchStepView::Finish(Err(FetchErrorView::InvalidSource(diagnostic))),
        Ok(video) => FetchStepView::LocateDownloads(ResolvedSourceView { video, title }),
    }
}

/// Whether a report is an answer to what a step asked for. A finished fetch
/// asks for nothing.
pub open spec fn answers(step: FetchStepView, report: FetchReportView) -> bool {
    match step {
        FetchStepView::LocateDownloads(_) => report is Downloads,
        FetchStepView::CreateDirectory(_) => report is Completed || report is Failed,
        FetchStepView::Transfer(_) => report is Completed || report is Failed,
        FetchStepView::Finish(_) => false,
    }
}

/// The step that follows `step` once the caller reports how its work went.
/// The lookup's answer leads to the plan or ends the fetch; a created
/// directory leads to the transfer, a completed transfer to the file's path
/// as text, a failure to the error of the step that failed. A report that
/// does not answer the step changes nothing, so a finished fetch stays as it
/// is.
pub open spec fn next_step(step: FetchStepView, report: FetchReportView) -> FetchStepView {
    match (step, report) {
        (FetchStepView::LocateDownloads(source), FetchReportView::Downloads(downloads)) =>
            planned_step(source.video, downloads, source.title),
        (FetchStepView::CreateDirectory(plan), FetchReportView::Completed) =>
            FetchStepView::Transfer(plan),
        (FetchStepView::CreateDirectory(_), FetchReportView::Failed(d)) => FetchStepView::Finish(
            Err(FetchErrorView::DirectoryCreation(d)),
        ),
        (FetchStepView::Transfer(plan), FetchReportView::Completed) => FetchStepView::Finish(
            Ok(lossy_text(plan.file)),
        ),
        (FetchStepView::Transfer(_), FetchReportView::Failed(d)) => FetchStepView::Finish(
            Err(FetchErrorView::Download(d)),
        ),
        _ => step,
    }
}

/// The bytes of the downloads location, where the platform gave one.
pub open spec fn located_bytes(downloads: Option<PathBuf>) -> Option<Seq<u8>> {
    match downloads {
        Some(base) => Some(path_bytes(base)),
        None => None,
    }
}

/// The text shown to the caller for a failed fetch.
pub open spec fn fetch_error_text(error: FetchErrorView) -> Seq<char> {
    match error {
        FetchErrorView::InvalidSource(d) => "Object Error: "@ + d,
        FetchErrorView::NoDownloadLocation =>
            "No se pudo obtener la carpeta de descargas del usuario"@,
        FetchErrorView::DirectoryCreation(d) => "Error al crear la carpeta de descargas: "@ + d,
        FetchErrorView::Download(d) => "Download Error: "@ + d,
    }
}

/// What a value returned by [`download_outcome`] holds.
pub open spec fn download_outcome_view(outcome: Result<String, String>) -> Result<
    Seq<char>,
    Seq<char>,
> {
    match outcome {
        Ok(path) => Ok(path@),
        Err(text) => Err(text@),
    }
}

/// A finished fetch as the front end sees it: the path, or the error as text.
pub open spec fn download_result(result: Result<Seq<char>, FetchErrorView>) -> Result<
    Seq<char>,
    Seq<char>,
> {
    match result {
        Ok(path) => Ok(path),
        Err(error) => Err(fetch_error_text(error)),
    }
}

impl FetchError {
    /// The text shown to the caller for this error.
    pub fn message(&self) -> (text: String)
        ensures
            text@ == fetch_error_text(self@),
    {
        match self {
            FetchError::InvalidSource(d) => {
                let mut text = String::from_str("Object Error: ");
                text.append(d.as_str());
                text
            },
            FetchError::NoDownloadLocation => String::from_str(
                "No se pudo obtener la carpeta de descargas del usuario",
            ),
            FetchError::DirectoryCreation(d) => {
                let mut text = String::from_str("Error al crear la carpeta de descargas: ");
                text.append(d.as_str());
                text
            },
            FetchError::Download(d) => {
                let mut text = String::from_str("Download Error: ");
                text.append(d.as_str());
                text
            },
        }
    }
}

/// Builds the name of the file written for a title. The title is not
/// checked or changed.
pub fn output_file_name(title: &str) -> (name: String)
    ensures
        name@ == output_file_name_of(title@),
{
    let mut name = String::from_str(title);
    name.append(".");
    name.append(OUTPUT_EXTENSION);
    name
}

/// Plans the download of a resolved item: given the user's downloads
/// location, fixes the directory and the file; given none, ends the fetch.
pub fn plan_download(video: Video, downloads: Option<PathBuf>, title: &str) -> (step: FetchStep)
    ensures
        step@ == planned_step(video, located_bytes(downloads), title@),
{
    match downloads {
        None => FetchStep::Finish(Err(FetchError::NoDownloadLocation)),
        Some(base) => {
            let directory = join_path(&base, DOWNLOAD_SUBDIR);
            let name = output_file_name(title);
            let file = join_path(&directory, name.as_str());
            FetchStep::CreateDirectory(DownloadPlan { video, directory, file })
        },
    }
}

/// Ends a fetch whose locator was not resolved, with the resolver's
/// diagnostic. Nothing is asked of the caller.
pub fn reject_source(diagnostic: String) -> (step: FetchStep)
    ensures
        step@ == FetchStepView::Finish(Err(FetchErrorView::InvalidSource(diagnostic@))),
{
    FetchStep::Finish(Err(FetchError::InvalidSource(diagnostic)))
}

/// Starts a fetch from what the resolver made of the locator. A locator that
/// was not resolved ends the fetch at once with `InvalidSource`, before
/// anything is asked of the caller; a resolved one leads to the lookup. The
/// diagnostic is the error's debug text, of which nothing is stated.
pub fn start_fetch(resolved: Result<Video, VideoError>, title: &str) -> (step: FetchStep)
    ensures
        resolved matches Ok(video) ==> step@ == first_step(Ok(video), title@),
        resolved matches Ok(video) ==> step@ == FetchStepView::LocateDownloads(
            ResolvedSourceView { video, title: title@ },
        ),
        resolved is Err ==> step@ matches FetchStepView::Finish(
            Err(FetchErrorView::InvalidSource(_)),
        ),
        resolved is Err ==> exists|diagnostic: Seq<char>|
            step@ == #[trigger] first_step(Err(diagnostic), title@),
{
    match resolved {
        Err(error) => {
            let diagnostic = describe_resolver_error(&error);
            let ghost text = diagnostic@;
            let step = reject_source(diagnostic);
            assert(step@ == first_step(Err(text), title@));
            step
        },
        Ok(video) => FetchStep::LocateDownloads(
            ResolvedSource { video, title: String::from_str(title) },
        ),
    }
}

/// Starts a fetch: hands the locator to the resolver and gives the first
/// step. A locator in which the resolver finds no video id ends the fetch
/// with `InvalidSource`. Otherwise the fetch either ends in the same way
/// (the resolver could not set itself up) or goes on to the lookup, for the
/// item that the locator names and under the title given.
pub fn begin_download(locator: &str, title: &str) -> (step: FetchStep)
    ensures
        step@ is LocateDownloads || step@ matches FetchStepView::Finish(
            Err(FetchErrorView::InvalidSource(_)),
        ),
        locator_video_id(locator@) is None ==> step@ matches FetchStepView::Finish(
            Err(FetchErrorView::InvalidSource(_)),
        ),
        step@ matches FetchStepView::LocateDownloads(source) ==> source.title == title@
            && locator_video_id(locator@) == Some(handle_video_id(source.video)),
        exists|resolved: Result<Video, Seq<char>>|
            step@ == #[trigger] first_step(resolved, title@) && (locator_video_id(locator@)
                is None ==> resolved is Err) && (resolved matches Ok(video)
                ==> locator_video_id(locator@) == Some(handle_video_id(video))),
{
    let resolved = resolve_locator(locator);
    let ghost found = resolved is Ok;
    let ghost handle = resolved->Ok_0;
    let step = start_fetch(resolved, title);
    proof {
        if found {
            assert(step@ == first_step(Ok(handle), title@));
        } else {
            let diagnostic = choose|diagnostic: Seq<char>|
                step@ == #[trigger] first_step(Err(diagnostic), title@);
            assert(step@ == first_step(Err(diagnostic), title@));
        }
    }
    step
}

/// Takes the caller's report of the work that `step` asked for and gives the
/// step that follows.
pub fn advance(step: FetchStep, report: FetchReport) -> (next: FetchStep)
    ensures
        next@ == next_step(step@, report@),
{
    match step {
        FetchStep::LocateDownloads(source) => match report {
            FetchReport::Downloads(downloads) => plan_download(
                source.video,
                downloads,
                source.title.as_str(),
            ),
            _ => FetchStep::LocateDownloads(source),
        },
        FetchStep::CreateDirectory(plan) => match report {
            FetchReport::Completed => FetchStep::Transfer(plan),
            FetchReport::Failed(d) => FetchStep::Finish(Err(FetchError::DirectoryCreation(d))),
            _ => FetchStep::CreateDirectory(plan),
        },
        FetchStep::Transfer(plan) => match report {
            FetchReport::Completed => FetchStep::Finish(Ok(display_path(&plan.file))),
            FetchReport::Failed(d) => FetchStep::Finish(Err(FetchError::Download(d))),
            _ => FetchStep::Transfer(plan),
        },
        FetchStep::Finish(result) => FetchStep::Finish(result),
    }
}

/// Turns a finished fetch into what the front end receives.
pub fn download_outcome(result: Result<String, FetchError>) -> (outcome: Result<String, String>)
    ensures
        download_outcome_view(outcome) == download_result(
            match result {
                Ok(path) => Ok(path@),
                Err(error) => Err(error@),
            },
        ),
{
    match result {
        Ok(path) => Ok(path),
        Err(error) => Err(error.message()),
    }
}

/// A fetch whose locator was not resolved is over before anything is asked
/// of the caller: its first step is the result, it is `InvalidSource` with
/// the resolver's diagnostic, and no report changes it.
pub proof fn lemma_unresolved_locator_asks_nothing(diagnostic: Seq<char>, title: Seq<char>)
    ensures
        first_step(Err(diagnostic), title) == FetchStepView::Finish(
            Err(FetchErrorView::InvalidSource(diagnostic)),
        ),
        forall|report: FetchReportView| #[trigger]
            next_step(first_step(Err(diagnostic), title), report) == first_step(
                Err(diagnostic),
                title,
            ),
{
}

/// A finished fetch asks for nothing more: whatever is reported to it, it
/// stays as it is.
pub proof fn lemma_finished_fetch_stays_finished(
    result: Result<Seq<char>, FetchErrorView>,
    report: FetchReportView,
)
    ensures
        next_step(FetchStepView::Finish(result), report) == FetchStepView::Finish(result),
{
}

/// A report that does not answer a step changes nothing.
pub proof fn lemma_other_reports_change_nothing(step: FetchStepView, report: FetchReportView)
    requires
        !answers(step, report),
    ensures
        next_step(step, report) == step,
{
}

/// The directory is asked for only as the answer to the lookup came, and it
/// is the one planned for that answer and the title.
pub proof fn lemma_directory_follows_lookup(step: FetchStepView, report: FetchReportView)
    requires
        !(step is CreateDirectory),
        next_step(step, report) is CreateDirectory,
    ensures
        step is LocateDownloads,
        report matches FetchReportView::Downloads(Some(base)) && next_step(step, report)
            == planned_step(
            step->LocateDownloads_0.video,
            Some(base),
            step->LocateDownloads_0.title,
        ),
{
}

/// The transfer is asked for only once the directory was reported created,
/// and for the plan that the directory belongs to.
pub proof fn lemma_transfer_follows_directory(step: FetchStepView, report: FetchReportView)
    requires
        !(step is Transfer),
        next_step(step, report) is Transfer,
    ensures
        step is CreateDirectory,
        report is Completed,
        next_step(step, report)->Transfer_0 == step->CreateDirectory_0,
{
}

/// A failure reported to a step ends the fetch with the error of that step,
/// holding the reported diagnostic; a lookup without an answer ends it with
/// `NoDownloadLocation`.
pub proof fn lemma_failure_names_its_step(step: FetchStepView, diagnostic: Seq<char>)
    ensures
        step is LocateDownloads ==> next_step(step, FetchReportView::Downloads(None))
            == FetchStepView::Finish(Err(FetchErrorView::NoDownloadLocation)),
        step is CreateDirectory ==> next_step(step, FetchReportView::Failed(diagnostic))
            == FetchStepView::Finish(Err(FetchErrorView::DirectoryCreation(diagnostic))),
        step is Transfer ==> next_step(step, FetchReportView::Failed(diagnostic))
            == FetchStepView::Finish(Err(FetchErrorView::Download(diagnostic))),
{
}

/// Every fetch is over after three answers at most.
pub proof fn lemma_three_answers_end_a_fetch(
    step: FetchStepView,
    first: FetchReportView,
    second: FetchReportView,
    third: FetchReportView,
)
    requires
        step is Finish || answers(step, first),
        next_step(step, first) is Finish || answers(next_step(step, first), second),
        next_step(next_step(step, first), second) is Finish || answers(
            next_step(next_step(step, first), second),
            third,
        ),
    ensures
        next_step(next_step(next_step(step, first), second), third) is Finish,
{
}

/// A fetch whose work all succeeds returns the text of the file named after
/// the title, inside the fixed subdirectory of the user's downloads.
pub proof fn lemma_completed_fetch_returns_file_path(
    video: Video,
    downloads: Seq<u8>,
    title: Seq<char>,
)
    ensures
        next_step(
            next_step(
                next_step(
                    first_step(Ok(video), title),
                    FetchReportView::Downloads(Some(downloads)),
                ),
                FetchReportView::Completed,
            ),
            FetchReportView::Completed,
        ) == FetchStepView::Finish(
            Ok(
                lossy_text(
                    joined_path(
                        joined_path(downloads, DOWNLOAD_SUBDIR@),
                        title + "."@ + OUTPUT_EXTENSION@,
                    ),
                ),
            ),
        ),
{
}

/// Two fetches with the same title and the same downloads location aim at
/// the same directory and the same file, whichever items they fetch. No step
/// looks at what is already there, so the second fetch meets no error that
/// the first did not.
pub proof fn lemma_same_title_same_file(
    first: Video,
    second: Video,
    downloads: Seq<u8>,
    title: Seq<char>,
)
    ensures
        planned_step(first, Some(downloads), title) is CreateDirectory,
        planned_step(second, Some(downloads), title) is CreateDirectory,
        planned_step(first, Some(downloads), title)->CreateDirectory_0.directory == planned_step(
            second,
            Some(downloads),
            title,
        )->CreateDirectory_0.directory,
        planned_step(first, Some(downloads), title)->CreateDirectory_0.file == planned_step(
            second,
            Some(downloads),
            title,
        )->CreateDirectory_0.file,
{
}

} // verus!
