//! The operations of the API: for each, the request that it sends. The
//! answer to each is decided by [`crate::http::check_response`], and an
//! accepted answer's body is the operation's JSON result.
use vstd::prelude::*;
use crate::client::Client;
use crate::http::{header, ApiRequest, ApiRequestView, HttpMethod};

verus! {

fn path_with_id(prefix: &str, id: &str, suffix: &str) -> (p: String)
    ensures
        p@ == prefix@ + id@ + suffix@,
{
    let mut p = String::from_str(prefix);
    p.append(id);
    p.append(suffix);
    p
}

impl Client {
    /// The request of a streamed call: a `POST` of the JSON body to `path`
    /// with only the content type and the bearer key as headers (no
    /// organization), whose answer arrives as server-sent events.
    pub open spec fn stream_view(&self, path: Seq<char>, json_body: Seq<char>) -> ApiRequestView {
        ApiRequestView {
            method: HttpMethod::Post,
            url: self.url_of(path),
            headers: seq![
                ("content-type"@, "application/json"@),
                ("authorization"@, "Bearer "@ + self.api_key@),
            ],
            json_body: Some(json_body),
        }
    }

    /// A streamed call is a `POST` to the endpoint followed by the path that
    /// carries the caller's JSON as its body, the JSON content type and the
    /// bearer key, and no organization header.
    pub proof fn lemma_stream_request(&self, path: Seq<char>, json_body: Seq<char>)
        ensures
            ({
                let r = self.stream_view(path, json_body);
                &&& r.method == HttpMethod::Post
                &&& r.url == self.api_endpoint@ + path
                &&& r.json_body == Some(json_body)
                &&& r.headers.contains(("content-type"@, "application/json"@))
                &&& r.headers.contains(("authorization"@, "Bearer "@ + self.api_key@))
                &&& forall|v: Seq<char>| !(#[trigger] r.headers.contains(("openai-organization"@, v)))
            }),
    {
        reveal_strlit("content-type");
        reveal_strlit("authorization");
        reveal_strlit("openai-organization");
        let h = self.stream_view(path, json_body).headers;
        assert(h[0] == ("content-type"@, "application/json"@));
        assert(h[1] == ("authorization"@, "Bearer "@ + self.api_key@));
        assert forall|v: Seq<char>| !h.contains(("openai-organization"@, v)) by {
            if h.contains(("openai-organization"@, v)) {
                let k = choose|k: int| 0 <= k < h.len() && h[k] == ("openai-organization"@, v);
                assert(k == 0 || k == 1);
                assert(h[k].0.len() != "openai-organization"@.len());
            }
        }
    }

    /// Creates a completion.
    pub fn completion(&self, params_json: String) -> (r: ApiRequest)
        ensures
            r@ == self.post_view("/completions"@, params_json@),
    {
        self.post("/completions", params_json)
    }

    /// Creates an edit.
    pub fn edit(&self, params_json: String) -> (r: ApiRequest)
        ensures
            r@ == self.post_view("/edits"@, params_json@),
    {
        self.post("/edits", params_json)
    }

    /// Generates images.
    pub fn image_generation(&self, params_json: String) -> (r: ApiRequest)
        ensures
            r@ == self.post_view("/images/generations"@, params_json@),
    {
        self.post("/images/generations", params_json)
    }

    /// Edits an image.
    pub fn image_edit(&self, params_json: String) -> (r: ApiRequest)
        ensures
            r@ == self.post_view("/images/edits"@, params_json@),
    {
        self.post("/images/edits", params_json)
    }

    /// Creates variations of an image.
    pub fn image_variation(&self, params_json: String) -> (r: ApiRequest)
        ensures
            r@ == self.post_view("/images/variations"@, params_json@),
    {
        self.post("/images/variations", params_json)
    }

    /// Creates an embedding.
    pub fn embedding(&self, params_json: String) -> (r: ApiRequest)
        ensures
            r@ == self.post_view("/embeddings"@, params_json@),
    {
        self.post("/embeddings", params_json)
    }

    /// Lists the uploaded files.
    pub fn file_list(&self) -> (r: ApiRequest)
        ensures
            r@ == self.get_view("/files"@),
    {
        self.get("/files")
    }

    /// Uploads a file.
    pub fn file_upload(&self, params_json: String) -> (r: ApiRequest)
        ensures
            r@ == self.post_view("/files"@, params_json@),
    {
        self.post("/files", params_json)
    }

    /// Deletes the file `file_id`.
    pub fn file_delete(&self, file_id: &str) -> (r: ApiRequest)
        ensures
            r@ == self.delete_view("/files/"@ + file_id@),
    {
        let path = path_with_id("/files/", file_id, "");
        proof { reveal_strlit(""); }
        assert(path@ =~= "/files/"@ + file_id@);
        self.delete(path.as_str())
    }

    /// Retrieves the description of the file `file_id`.
    pub fn file_retrieve(&self, file_id: &str) -> (r: ApiRequest)
        ensures
            r@ == self.get_view("/files/"@ + file_id@),
    {
        let path = path_with_id("/files/", file_id, "");
        proof { reveal_strlit(""); }
        assert(path@ =~= "/files/"@ + file_id@);
        self.get(path.as_str())
    }

    /// Retrieves the content of the file `file_id`.
    pub fn file_retrieve_content(&self, file_id: &str) -> (r: ApiRequest)
        ensures
            r@ == self.get_view("/files/"@ + file_id@ + "/content"@),
    {
        let path = path_with_id("/files/", file_id, "/content");
        self.get(path.as_str())
    }

    /// Creates a chat completion.
    pub fn chat_completion(&self, params_json: String) -> (r: ApiRequest)
        ensures
            r@ == self.post_view("/chat/completions"@, params_json@),
    {
        self.post("/chat/completions", params_json)
    }

    /// Transcribes audio.
    pub fn audio_transcription(&self, params_json: String) -> (r: ApiRequest)
        ensures
            r@ == self.post_view("/audio/transcriptions"@, params_json@),
    {
        self.post("/audio/transcriptions", params_json)
    }

    /// Translates audio.
    pub fn audio_translation(&self, params_json: String) -> (r: ApiRequest)
        ensures
            r@ == self.post_view("/audio/translations"@, params_json@),
    {
        self.post("/audio/translations", params_json)
    }

    /// Creates a fine-tuning job.
    pub fn create_fine_tune(&self, params_json: String) -> (r: ApiRequest)
        ensures
            r@ == self.post_view("/fine-tunes"@, params_json@),
    {
        self.post("/fine-tunes", params_json)
    }

    /// Lists the fine-tuning jobs.
    pub fn list_fine_tune(&self) -> (r: ApiRequest)
        ensures
            r@ == self.get_view("/fine-tunes"@),
    {
        self.get("/fine-tunes")
    }

    /// Retrieves the fine-tuning job `fine_tune_id`.
    pub fn retrieve_fine_tune(&self, fine_tune_id: &str) -> (r: ApiRequest)
        ensures
            r@ == self.get_view("/fine_tunes/"@ + fine_tune_id@),
    {
        let path = path_with_id("/fine_tunes/", fine_tune_id, "");
        proof { reveal_strlit(""); }
        assert(path@ =~= "/fine_tunes/"@ + fine_tune_id@);
        self.get(path.as_str())
    }

    /// Cancels the fine-tuning job `fine_tune_id`; the body is the JSON of the
    /// cancel request.
    pub fn cancel_fine_tune(&self, fine_tune_id: &str, params_json: String) -> (r: ApiRequest)
        ensures
            r@ == self.post_view("/fine_tunes/"@ + fine_tune_id@ + "/cancel"@, params_json@),
    {
        let path = path_with_id("/fine_tunes/", fine_tune_id, "/cancel");
        self.post(path.as_str(), params_json)
    }

    /// Lists the events of the fine-tuning job `fine_tune_id`.
    pub fn list_fine_tune_events(&self, fine_tune_id: &str) -> (r: ApiRequest)
        ensures
            r@ == self.get_view("/fine-tunes/"@ + fine_tune_id@ + "/events"@),
    {
        let path = path_with_id("/fine-tunes/", fine_tune_id, "/events");
        self.get(path.as_str())
    }

    /// Deletes the fine-tuned model `model_id`.
    pub fn delete_fine_tune(&self, model_id: &str) -> (r: ApiRequest)
        ensures
            r@ == self.delete_view("/models/"@ + model_id@),
    {
        let path = path_with_id("/models/", model_id, "");
        proof { reveal_strlit(""); }
        assert(path@ =~= "/models/"@ + model_id@);
        self.delete(path.as_str())
    }

    /// Creates a moderation.
    pub fn create_moderation(&self, params_json: String) -> (r: ApiRequest)
        ensures
            r@ == self.post_view("/moderations"@, params_json@),
    {
        self.post("/moderations", params_json)
    }

    /// The request of a call whose answer streams as server-sent events.
    pub fn event_stream(&self, path: &str, params_json: String) -> (r: ApiRequest)
        ensures
            r@ == self.stream_view(path@, params_json@),
    {
        let mut url = self.api_endpoint.clone();
        url.append(path);
        proof { reveal_strlit("Bearer "); }
        let mut bearer = String::from_str("Bearer ");
        bearer.append(self.api_key.as_str());
        let mut headers = Vec::new();
        headers.push(header("content-type", String::from_str("application/json")));
        headers.push(header("authorization", bearer));
        let r = ApiRequest { method: HttpMethod::Post, url, headers, json_body: Some(params_json) };
        assert(r@.headers =~= self.stream_view(path@, params_json@).headers);
        r
    }

    /// The request of a streamed call whose events each carry one JSON value.
    pub fn stream(&self, path: &str, params_json: String) -> (r: ApiRequest)
        ensures
            r@ == self.stream_view(path@, params_json@),
    {
        self.event_stream(path, params_json)
    }

    /// The request of a streamed chat completion.
    pub fn chat_completion_stream(&self, params_json: String) -> (r: ApiRequest)
        ensures
            r@ == self.stream_view("/chat/completions"@, params_json@),
    {
        self.event_stream("/chat/completions", params_json)
    }
}

} // verus!
