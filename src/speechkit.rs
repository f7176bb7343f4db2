//! Speech recognition: which audio file to send, and for which folder and
//! language.
use vstd::prelude::*;

use crate::api::pairs_view;
use crate::text::owned;

verus! {

/// The path of the recognition endpoint.
pub const URI: &'static str = "/speech/v1/stt:recognize";

/// The base URL of the recognition service.
pub const URL: &'static str = "https://stt.api.cloud.yandex.net";

/// A recognition request.
#[derive(Debug, Clone)]
pub struct Payload {
    /// The path of the audio file to send.
    pub file: String,
    pub folder_id: String,
    pub lang: String,
}

/// What the recognition endpoint answers.
#[derive(Debug, Clone)]
pub struct Response {
    pub result: String,
}

impl Payload {
    /// A request for folder `folder_id` in language `lang`, with no file yet.
    pub fn new(folder_id: &str, lang: &str) -> (r: Payload)
        ensures
            r.file@.len() == 0,
            r.folder_id@ == folder_id@,
            r.lang@ == lang@,
    {
        Payload { file: String::new(), folder_id: owned(folder_id), lang: owned(lang) }
    }

    /// Sets the audio file to send.
    pub fn file(self, file: &str) -> (r: Result<Payload, crate::Error>)
        ensures
            r is Ok,
            r is Ok ==> r->Ok_0.file@ == file@ && r->Ok_0.folder_id == self.folder_id
                && r->Ok_0.lang == self.lang,
    {
        Ok(Payload { file: owned(file), ..self })
    }

    /// The query parameters of the request: `folderId` and `lang`.
    pub fn query(&self) -> (r: Vec<(String, String)>)
        ensures
            pairs_view(r@) == seq![("folderId"@, self.folder_id@), ("lang"@, self.lang@)],
    {
        let mut q: Vec<(String, String)> = Vec::new();
        q.push((owned("folderId"), self.folder_id.clone()));
        q.push((owned("lang"), self.lang.clone()));
        assert(pairs_view(q@) =~= seq![("folderId"@, self.folder_id@), ("lang"@, self.lang@)]);
        q
    }
}

} // verus!
