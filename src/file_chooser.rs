use vstd::prelude::*;

use crate::runner::{
    Runner, RunnerError, RunnerOpenFileOptions, RunnerResult, RunnerSaveFileOptions,
    RunnerSaveFilesOptions,
};
use crate::save_path::{recommended_path, recommended_path_spec};
use crate::text::{decode_path, decoded_path};

verus! {

/// The code of a reply whose request succeeded.
pub const PORTAL_RESPONSE_SUCCESS: u32 = 0;

/// The code of a reply whose request the user cancelled.
pub const PORTAL_RESPONSE_CANCELLED: u32 = 1;

/// The code of a reply whose request failed in another way.
pub const PORTAL_RESPONSE_OTHER: u32 = 2;

/// Choices offered beside a file chooser: id, label, options, initial option.
pub type Choices = Vec<(String, String, Vec<(String, String)>, String)>;

/// A named filter with its patterns.
pub type Filter = (String, Vec<(u32, String)>);

pub type Filters = Vec<Filter>;

/// The options of an open-file request; every one may be absent.
#[derive(Debug, Clone, PartialEq, Eq, Default)]
pub struct OpenFileOptions {
    pub accept_label: Option<String>,
    pub modal: Option<bool>,
    pub multiple: Option<bool>,
    pub directory: Option<bool>,
    pub filters: Option<Filters>,
    pub current_filter: Option<Filter>,
    pub choices: Option<Choices>,
    pub current_folder: Option<Vec<u8>>,
}

/// The options of a save-file request; every one may be absent.
#[derive(Debug, Clone, PartialEq, Eq, Default)]
pub struct SaveFileOptions {
    pub accept_label: Option<String>,
    pub modal: Option<bool>,
    pub filters: Option<Filters>,
    pub current_filter: Option<Filter>,
    pub choices: Option<Choices>,
    pub current_name: Option<String>,
    pub current_folder: Option<Vec<u8>>,
    pub current_file: Option<Vec<u8>>,
}

/// The options of a save-files request; every one may be absent.
#[derive(Debug, Clone, PartialEq, Eq, Default)]
pub struct SaveFilesOptions {
    pub accept_label: Option<String>,
    pub modal: Option<bool>,
    pub choices: Option<Choices>,
    pub current_folder: Option<Vec<u8>>,
    pub files: Option<Vec<Vec<u8>>>,
}

/// What a successful reply carries: the selected URIs. Choices and filters
/// are not supported, so they stay empty.
#[derive(Debug, Clone, PartialEq, Eq)]
pub struct FileChooserResult {
    pub uris: Vec<String>,
    pub choices: Vec<(String, String)>,
    pub current_filter: Option<Filter>,
}

/// A reply to a request: success with its payload, cancelled, or failed.
#[derive(Debug, Clone, PartialEq, Eq)]
pub enum PortalResponse<T> {
    Success(T),
    Cancelled,
    Other,
}

impl From<OpenFileOptions> for RunnerOpenFileOptions {
    /// Both flags pass through; an absent one is `false`.
    fn from(options: OpenFileOptions) -> (r: Self) {
        RunnerOpenFileOptions {
            multiple: match options.multiple {
                Some(b) => b,
                None => false,
            },
            directory: match options.directory {
                Some(b) => b,
                None => false,
            },
        }
    }
}

impl vstd::std_specs::convert::FromSpecImpl<OpenFileOptions> for RunnerOpenFileOptions {
    open spec fn obeys_from_spec() -> bool {
        true
    }

    open spec fn from_spec(options: OpenFileOptions) -> RunnerOpenFileOptions {
        RunnerOpenFileOptions {
            multiple: options.multiple == Some(true),
            directory: options.directory == Some(true),
        }
    }
}

/// The folder a save starts from: the one the request names, decoded, or
/// else the working directory.
pub open spec fn save_folder_spec(options: SaveFileOptions, cwd: Seq<char>) -> Seq<char> {
    match options.current_folder {
        Some(b) => decoded_path(b@),
        None => cwd,
    }
}

/// The name a save starts from: the one the request names, or `untitled`.
pub open spec fn save_name_spec(options: SaveFileOptions) -> Seq<char> {
    match options.current_name {
        Some(n) => n@,
        None => "untitled"@,
    }
}

/// The folder a save starts from (see `save_folder_spec`).
pub fn save_folder(options: &SaveFileOptions, cwd: &str) -> (r: String)
    ensures
        r@ == save_folder_spec(*options, cwd@),
{
    match &options.current_folder {
        Some(b) => decode_path(b),
        None => cwd.to_string(),
    }
}

/// The name a save starts from (see `save_name_spec`).
pub fn save_name(options: &SaveFileOptions) -> (r: String)
    ensures
        r@ == save_name_spec(*options),
{
    match &options.current_name {
        Some(n) => n.clone(),
        None => String::from_str("untitled"),
    }
}

/// The destination to suggest for a save request, given the working
/// directory and the paths that are taken: the requested name in the
/// requested folder, with underscores appended to its stem until it is free.
pub fn get_recommended_filepath(options: &SaveFileOptions, cwd: &str, existing: &Vec<String>) -> (r:
    String)
    ensures
        r@ == recommended_path_spec(
            save_folder_spec(*options, cwd@),
            save_name_spec(*options),
            existing.deep_view(),
        ),
        !existing.deep_view().contains(r@),
{
    let folder = save_folder(options, cwd);
    let name = save_name(options);
    recommended_path(folder.as_str(), name.as_str(), existing)
}

impl RunnerSaveFileOptions {
    /// The options of a save-file script run for a request.
    pub fn from_options(options: &SaveFileOptions, cwd: &str, existing: &Vec<String>) -> (r: Self)
        ensures
            r.recommended_path@ == recommended_path_spec(
                save_folder_spec(*options, cwd@),
                save_name_spec(*options),
                existing.deep_view(),
            ),
            !existing.deep_view().contains(r.recommended_path@),
    {
        RunnerSaveFileOptions { recommended_path: get_recommended_filepath(options, cwd, existing) }
    }
}

impl RunnerSaveFilesOptions {
    /// The options of a save-files script run for a request: the folder and
    /// every file name decoded; no file names where the request gives none.
    pub fn from_options(options: &SaveFilesOptions) -> (r: Self)
        ensures
            r.current_folder.deep_view() == match options.current_folder {
                Some(b) => Some(decoded_path(b@)),
                None => None,
            },
            r.files.deep_view() == match options.files {
                Some(fs) => fs@.map_values(|f: Vec<u8>| decoded_path(f@)),
                None => Seq::empty(),
            },
    {
        let current_folder = match &options.current_folder {
            Some(b) => Some(decode_path(b)),
            None => None,
        };
        let mut files: Vec<String> = Vec::new();
        match &options.files {
            Some(fs) => {
                let mut i: usize = 0;
                while i < fs.len()
                    invariant
                        i <= fs.len(),
                        files.deep_view() =~= fs@.map_values(|f: Vec<u8>| decoded_path(f@)).take(
                            i as int,
                        ),
                    decreases fs.len() - i,
                {
                    let ghost prev = files.deep_view();
                    let d = decode_path(&fs[i]);
                    files.push(d);
                    proof {
                        assert(files.deep_view() =~= prev.push(d@));
                    }
                    i = i + 1;
                }
                assert(fs@.map_values(|f: Vec<u8>| decoded_path(f@)).take(fs.len() as int)
                    =~= fs@.map_values(|f: Vec<u8>| decoded_path(f@)));
            },
            None => {
                assert(files.deep_view() =~= Seq::<Seq<char>>::empty());
            },
        }
        RunnerSaveFilesOptions { current_folder, files }
    }
}

impl FileChooserResult {
    /// The payload of a successful reply: the URIs of a result.
    pub fn from_result(result: RunnerResult) -> (r: Self)
        ensures
            r.uris == result.uris,
            r.choices@.len() == 0,
            r.current_filter is None,
    {
        FileChooserResult { uris: result.uris, choices: Vec::new(), current_filter: None }
    }
}

/// Whether `r` is the reply to a script run that ended in `res`: a failure is
/// `Other`, an empty selection `Cancelled`, any other selection `Success`
/// with those URIs and nothing else.
pub open spec fn is_response_to(
    res: Result<RunnerResult, RunnerError>,
    r: PortalResponse<FileChooserResult>,
) -> bool {
    match res {
        Err(_) => r is Other,
        Ok(result) => if result.uris@.len() == 0 {
            r is Cancelled
        } else {
            r matches PortalResponse::Success(f) && f.uris == result.uris && f.choices@.len() == 0
                && f.current_filter is None
        },
    }
}

/// The numeric code of a reply.
pub open spec fn response_code_spec<T>(r: PortalResponse<T>) -> u32 {
    match r {
        PortalResponse::Success(_) => PORTAL_RESPONSE_SUCCESS,
        PortalResponse::Cancelled => PORTAL_RESPONSE_CANCELLED,
        PortalResponse::Other => PORTAL_RESPONSE_OTHER,
    }
}

impl<T> PortalResponse<T> {
    /// The numeric code of this reply: 0, 1 or 2.
    pub fn response_code(&self) -> (r: u32)
        ensures
            r == response_code_spec(*self),
    {
        match self {
            PortalResponse::Success(_) => PORTAL_RESPONSE_SUCCESS,
            PortalResponse::Cancelled => PORTAL_RESPONSE_CANCELLED,
            PortalResponse::Other => PORTAL_RESPONSE_OTHER,
        }
    }

    /// This reply as it goes on the wire: its code, and the payload whose
    /// fields fill the results dictionary; `None` stands for an empty one.
    pub fn into_parts(self) -> (r: (u32, Option<T>))
        ensures
            r.0 == response_code_spec(self),
            r.1 == match self {
                PortalResponse::Success(t) => Some(t),
                _ => None,
            },
    {
        let code = self.response_code();
        match self {
            PortalResponse::Success(t) => (code, Some(t)),
            _ => (code, None),
        }
    }
}

impl PortalResponse<FileChooserResult> {
    /// The reply to a script run that ended in `res`.
    pub fn from_result(res: Result<RunnerResult, RunnerError>) -> (r: Self)
        ensures
            is_response_to(res, r),
    {
        match res {
            Ok(result) => {
                let payload = FileChooserResult::from_result(result);
                if payload.uris.len() == 0 {
                    PortalResponse::Cancelled
                } else {
                    PortalResponse::Success(payload)
                }
            },
            Err(_) => PortalResponse::Other,
        }
    }
}

/// The code of the reply to a script run follows the run:
/// 2 for any failure, 1 for an empty selection, 0 for any other selection.
pub proof fn lemma_response_codes(
    res: Result<RunnerResult, RunnerError>,
    r: PortalResponse<FileChooserResult>,
)
    requires
        is_response_to(res, r),
    ensures
        res is Err ==> response_code_spec(r) == 2,
        res matches Ok(x) && x.uris@.len() == 0 ==> response_code_spec(r) == 1,
        res matches Ok(x) && x.uris@.len() > 0 ==> response_code_spec(r) == 0,
{
}

/// The file-chooser service: answers each request by running the matching
/// script and turning its result into a reply.
pub struct FileChooser<R: Runner + ?Sized = dyn Runner> {
    runner: Box<R>,
}

impl<R: Runner + ?Sized> FileChooser<R> {
    /// The runner that answers this chooser's requests.
    pub closed spec fn runner(&self) -> Box<R> {
        self.runner
    }

    /// A chooser whose requests go to `runner`.
    pub fn new(runner: Box<R>) -> (r: Self)
        ensures
            r.runner() == runner,
    {
        FileChooser { runner }
    }

    /// Answers an open-file request.
    pub fn open_file(&self, options: OpenFileOptions) -> (r: PortalResponse<FileChooserResult>)
        ensures
            exists|res: Result<RunnerResult, RunnerError>| is_response_to(res, r),
    {
        let res = self.runner.run_open_file(&RunnerOpenFileOptions::from(options));
        PortalResponse::from_result(res)
    }

    /// Answers a save-file request whose destination is `options`, once the
    /// placeholder file there has been written, or has failed to be: after a
    /// failure the script is not run and the reply is `Other`.
    pub fn save_file(
        &self,
        options: &RunnerSaveFileOptions,
        placeholder: Result<(), RunnerError>,
    ) -> (r: PortalResponse<FileChooserResult>)
        ensures
            placeholder is Err ==> r is Other,
            exists|res: Result<RunnerResult, RunnerError>| is_response_to(res, r),
    {
        if let Err(e) = placeholder {
            let r = PortalResponse::Other;
            assert(is_response_to(Err::<RunnerResult, RunnerError>(e), r));
            return r;
        }
        let res = self.runner.run_save_file(options);
        PortalResponse::from_result(res)
    }

    /// Answers a save-files request.
    pub fn save_files(&self, options: SaveFilesOptions) -> (r: PortalResponse<FileChooserResult>)
        ensures
            exists|res: Result<RunnerResult, RunnerError>| is_response_to(res, r),
    {
        let res = self.runner.run_save_files(&RunnerSaveFilesOptions::from_options(&options));
        PortalResponse::from_result(res)
    }
}

} // verus!
