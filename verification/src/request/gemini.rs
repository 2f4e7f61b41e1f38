//! Building requests and reading answers of the Gemini API.
use vstd::prelude::*;
use vstd::string::StringExecFns;

use crate::client::vertex::{model_path, model_path_string, ModelString};
use crate::gemini_types::part::Data;
use crate::gemini_types::{Blob, Content, GenerateContentRequest, GenerateContentResponse, GenerationConfig, Part};
use crate::value::Value;

verus! {

/// `p` is a new part that holds `d`.
pub open spec fn is_new_part(p: Part, d: Data) -> bool {
    p.data == Some(d)
}

/// `r` is `c` with one more part at the end.
pub open spec fn appends_one(c: Content, r: Content) -> bool {
    &&& r.role == c.role
    &&& r.parts@.len() == c.parts@.len() + 1
    &&& r.parts@.take(c.parts@.len() as int) == c.parts@
}

/// `r` is `c` with a new part at the end that holds `mime_type` media.
pub open spec fn appends_media(c: Content, r: Content, data: Vec<u8>, mime_type: Seq<char>) -> bool {
    &&& appends_one(c, r)
    &&& r.parts@.last().data matches Some(Data::InlineData(b)) && b.data == data && b.mime_type@ == mime_type
    &&& is_new_part(r.parts@.last(), r.parts@.last().data->0)
}

impl Part {
    /// A part that holds `data`.
    pub fn new(data: Data) -> (r: Self)
        ensures
            is_new_part(r, data),
    {
        Part { data: Some(data) }
    }
}

impl From<Blob> for Part {
    /// A part that holds the media inline.
    fn from(blob: Blob) -> (r: Part)
        ensures
            is_new_part(r, Data::InlineData(blob)),
    {
        Part::new(Data::InlineData(blob))
    }
}

impl vstd::std_specs::convert::FromSpecImpl<Blob> for Part {
    /// The conversion is stated on `from` itself.
    open spec fn obeys_from_spec() -> bool {
        false
    }

    open spec fn from_spec(v: Blob) -> Part {
        arbitrary()
    }
}

impl From<String> for Part {
    /// A part that holds the text.
    fn from(text: String) -> (r: Part)
        ensures
            is_new_part(r, Data::Text(text)),
    {
        Part::new(Data::Text(text))
    }
}

impl vstd::std_specs::convert::FromSpecImpl<String> for Part {
    /// The conversion is stated on `from` itself.
    open spec fn obeys_from_spec() -> bool {
        false
    }

    open spec fn from_spec(v: String) -> Part {
        arbitrary()
    }
}

impl<'a> From<&'a str> for Part {
    /// A part that holds a copy of the text.
    fn from(text: &'a str) -> (r: Part)
        ensures
            r.data matches Some(Data::Text(t)) && t@ == text@,
            is_new_part(r, r.data->0),
    {
        Part::new(Data::Text(String::from_str(text)))
    }
}

impl<'a> vstd::std_specs::convert::FromSpecImpl<&'a str> for Part {
    /// The conversion is stated on `from` itself.
    open spec fn obeys_from_spec() -> bool {
        false
    }

    open spec fn from_spec(v: &'a str) -> Part {
        arbitrary()
    }
}

impl Content {
    /// A user message made of `parts`.
    pub fn new(parts: Vec<Part>) -> (r: Self)
        ensures
            r.role@ == "user"@,
            r.parts == parts,
    {
        Content { role: String::from_str("user"), parts }
    }

    ///user role
    pub fn user() -> (r: Self)
        ensures
            r.role@ == "user"@,
            r.parts@.len() == 0,
    {
        let mut c = Self::default();
        c.role = String::from_str("user");
        c
    }

    ///model role
    pub fn model() -> (r: Self)
        ensures
            r.role@ == "model"@,
            r.parts@.len() == 0,
    {
        let mut c = Self::default();
        c.role = String::from_str("model");
        c
    }

    /// Adds an `image/jpeg` image.
    pub fn with_jpeg(self, data: Vec<u8>) -> (r: Self)
        ensures
            appends_media(self, r, data, "image/jpeg"@),
    {
        self.with_image(data, String::from_str("image/jpeg"))
    }

    /// Adds an `image/png` image.
    pub fn with_png(self, data: Vec<u8>) -> (r: Self)
        ensures
            appends_media(self, r, data, "image/png"@),
    {
        self.with_image(data, String::from_str("image/png"))
    }

    /// Adds an `image/webp` image.
    pub fn with_webp(self, data: Vec<u8>) -> (r: Self)
        ensures
            appends_media(self, r, data, "image/webp"@),
    {
        self.with_image(data, String::from_str("image/webp"))
    }

    /// Adds an `image/heic` image.
    pub fn with_heic(self, data: Vec<u8>) -> (r: Self)
        ensures
            appends_media(self, r, data, "image/heic"@),
    {
        self.with_image(data, String::from_str("image/heic"))
    }

    /// Adds an `image/heif` image.
    pub fn with_heif(self, data: Vec<u8>) -> (r: Self)
        ensures
            appends_media(self, r, data, "image/heif"@),
    {
        self.with_image(data, String::from_str("image/heif"))
    }

    /// Adds media of the given MIME type.
    pub fn with_image(self, data: Vec<u8>, mime_type: String) -> (r: Self)
        ensures
            appends_media(self, r, data, mime_type@),
    {
        self.with_data(Blob { mime_type, data })
    }

    /// Adds a part that holds the media inline.
    pub fn with_data(self, blob: Blob) -> (r: Self)
        ensures
            appends_one(self, r),
            is_new_part(r.parts@.last(), Data::InlineData(blob)),
    {
        self.with_part(Data::InlineData(blob))
    }

    /// Adds a text part.
    pub fn with_text(self, text: String) -> (r: Self)
        ensures
            appends_one(self, r),
            is_new_part(r.parts@.last(), Data::Text(text)),
    {
        self.with_part(Data::Text(text))
    }

    /// Adds a part that holds `data`.
    pub fn with_part(self, data: Data) -> (r: Self)
        ensures
            appends_one(self, r),
            is_new_part(r.parts@.last(), data),
    {
        let mut c = self;
        c.parts.push(Part::new(data));
        proof {
            assert(c.parts@.take(self.parts@.len() as int) =~= self.parts@);
        }
        c
    }
}

impl GenerateContentRequest {
    /// Sets the model by its full resource name.
    pub fn model_string(self, ms: ModelString) -> (r: Self)
        ensures
            r.model == ms.0,
            r.contents == self.contents,
            r.generation_config == self.generation_config,
    {
        let mut s = self;
        s.model = ms.0;
        s
    }

    /// Sets the model by project, location and name.
    pub fn model(self, project_id: &str, location: &str, model_name: &str) -> (r: Self)
        ensures
            r.model@ == model_path(project_id@, location@, model_name@),
            r.contents == self.contents,
            r.generation_config == self.generation_config,
    {
        let mut s = self;
        s.model = model_path_string(project_id, location, model_name);
        s
    }

    /// Sets how the answer is generated.
    pub fn generation_config(self, gen_cfg: GenerationConfig) -> (r: Self)
        ensures
            r.generation_config == Some(gen_cfg),
            r.model == self.model,
            r.contents == self.contents,
    {
        let mut s = self;
        s.generation_config = Some(gen_cfg);
        s
    }

    /// Adds a message to the conversation.
    pub fn with_content(self, contents: Content) -> (r: Self)
        ensures
            r.contents@ == self.contents@.push(contents),
            r.model == self.model,
            r.generation_config == self.generation_config,
    {
        let mut s = self;
        s.contents.push(contents);
        s
    }
}

impl GenerationConfig {
    /// Asks for JSON that follows `schema`.
    pub fn with_json_schema(self, schema: Value) -> (r: Self)
        ensures
            r.response_json_schema_ordered == Some(schema),
            r.candidate_count == self.candidate_count,
            r.stop_sequences == self.stop_sequences,
            r.max_output_tokens == self.max_output_tokens,
    {
        let mut s = self;
        s.response_json_schema_ordered = Some(schema);
        s
    }
}

/// The text of the first text part among `parts`.
pub open spec fn first_text_in_parts(parts: Seq<Part>) -> Option<String>
    decreases parts.len(),
{
    if parts.len() == 0 {
        None
    } else {
        match parts[0].data {
            Some(Data::Text(t)) => Some(t),
            _ => first_text_in_parts(parts.drop_first()),
        }
    }
}

/// The text of the first text part of the first candidate that has one.
pub open spec fn first_text_of(candidates: Seq<crate::gemini_types::Candidate>) -> Option<String>
    decreases candidates.len(),
{
    if candidates.len() == 0 {
        None
    } else {
        match candidates[0].content {
            Some(c) => match first_text_in_parts(c.parts@) {
                Some(t) => Some(t),
                None => first_text_of(candidates.drop_first()),
            },
            None => first_text_of(candidates.drop_first()),
        }
    }
}

fn first_text_in(parts: &Vec<Part>) -> (r: Option<String>)
    ensures
        r == first_text_in_parts(parts@),
{
    let mut i: usize = 0;
    assert(parts@.skip(0) =~= parts@);
    while i < parts.len()
        invariant
            i <= parts@.len(),
            first_text_in_parts(parts@) == first_text_in_parts(parts@.skip(i as int)),
        decreases parts@.len() - i,
    {
        assert(parts@.skip(i as int).drop_first() =~= parts@.skip(i + 1));
        assert(parts@.skip(i as int)[0] == parts@[i as int]);
        if let Some(Data::Text(text)) = &parts[i].data {
            return Some(text.clone());
        }
        i = i + 1;
    }
    None
}

impl GenerateContentResponse {
    /// The text that `deserialize` reads: the first text part of the first candidate that has
    /// one.
    pub fn first_text(&self) -> (r: Option<String>)
        ensures
            r == first_text_of(self.candidates@),
    {
        let mut i: usize = 0;
        assert(self.candidates@.skip(0) =~= self.candidates@);
        while i < self.candidates.len()
            invariant
                i <= self.candidates@.len(),
                first_text_of(self.candidates@) == first_text_of(self.candidates@.skip(i as int)),
            decreases self.candidates@.len() - i,
        {
            assert(self.candidates@.skip(i as int).drop_first() =~= self.candidates@.skip(i + 1));
            assert(self.candidates@.skip(i as int)[0] == self.candidates@[i as int]);
            if let Some(content) = &self.candidates[i].content {
                let t = first_text_in(&content.parts);
                if t.is_some() {
                    return t;
                }
            }
            i = i + 1;
        }
        None
    }
}

/// A part that carries text.
pub open spec fn is_text_part(p: Part) -> bool {
    p.data matches Some(Data::Text(_))
}

/// A candidate whose content carries at least one text part.
pub open spec fn has_text_part(c: crate::gemini_types::Candidate) -> bool {
    c.content matches Some(co) && exists|q: int| 0 <= q < co.parts@.len() && is_text_part(#[trigger] co.parts@[q])
}

/// The text that is read from a list of parts is the text of its earliest text part: where part
/// `k` holds text `t` and no part before it holds text, the first text is `t`, whatever follows.
pub proof fn lemma_first_text_is_earliest_part(parts: Seq<Part>, k: int)
    requires
        0 <= k < parts.len(),
        is_text_part(parts[k]),
        forall|j: int| 0 <= j < k ==> !is_text_part(#[trigger] parts[j]),
    ensures
        parts[k].data matches Some(Data::Text(t)) && first_text_in_parts(parts) == Some(t),
    decreases k,
{
    if k > 0 {
        assert(!is_text_part(parts[0]));
        let rest = parts.drop_first();
        assert forall|j: int| 0 <= j < k - 1 implies !is_text_part(#[trigger] rest[j]) by {
            assert(rest[j] == parts[j + 1]);
        }
        lemma_first_text_is_earliest_part(rest, k - 1);
        assert(rest[k - 1] == parts[k]);
    }
}

/// A list of parts without any text part has no text to read.
pub proof fn lemma_no_text_part_no_text(parts: Seq<Part>)
    requires
        forall|j: int| 0 <= j < parts.len() ==> !is_text_part(#[trigger] parts[j]),
    ensures
        first_text_in_parts(parts) is None,
    decreases parts.len(),
{
    if parts.len() > 0 {
        assert(!is_text_part(parts[0]));
        let rest = parts.drop_first();
        assert forall|j: int| 0 <= j < rest.len() implies !is_text_part(#[trigger] rest[j]) by {
            assert(rest[j] == parts[j + 1]);
        }
        lemma_no_text_part_no_text(rest);
    }
}

/// The answer of a response is read from its earliest candidate that has a text part, and from
/// that candidate's earliest text part: where candidate `k` has text part `p` first, and no
/// candidate before it has a text part, the answer is the text of part `p` of candidate `k`.
pub proof fn lemma_first_text_is_earliest_candidate(candidates: Seq<crate::gemini_types::Candidate>, k: int, p: int)
    requires
        0 <= k < candidates.len(),
        candidates[k].content matches Some(co) && 0 <= p < co.parts@.len() && is_text_part(co.parts@[p])
            && forall|q: int| 0 <= q < p ==> !is_text_part(#[trigger] co.parts@[q]),
        forall|j: int| 0 <= j < k ==> !has_text_part(#[trigger] candidates[j]),
    ensures
        candidates[k].content matches Some(co) && co.parts@[p].data matches Some(Data::Text(t))
            && first_text_of(candidates) == Some(t),
    decreases k,
{
    if k == 0 {
        let co = candidates[0].content->Some_0;
        lemma_first_text_is_earliest_part(co.parts@, p);
    } else {
        let c0 = candidates[0];
        assert(!has_text_part(c0));
        if let Some(co) = c0.content {
            lemma_no_text_part_no_text(co.parts@);
        }
        let rest = candidates.drop_first();
        assert forall|j: int| 0 <= j < k - 1 implies !has_text_part(#[trigger] rest[j]) by {
            assert(rest[j] == candidates[j + 1]);
        }
        assert(rest[k - 1] == candidates[k]);
        lemma_first_text_is_earliest_candidate(rest, k - 1, p);
    }
}

/// A response none of whose candidates has a text part has no answer.
pub proof fn lemma_no_text_candidate_no_text(candidates: Seq<crate::gemini_types::Candidate>)
    requires
        forall|j: int| 0 <= j < candidates.len() ==> !has_text_part(#[trigger] candidates[j]),
    ensures
        first_text_of(candidates) is None,
    decreases candidates.len(),
{
    if candidates.len() > 0 {
        let c0 = candidates[0];
        assert(!has_text_part(c0));
        if let Some(co) = c0.content {
            lemma_no_text_part_no_text(co.parts@);
        }
        let rest = candidates.drop_first();
        assert forall|j: int| 0 <= j < rest.len() implies !has_text_part(#[trigger] rest[j]) by {
            assert(rest[j] == candidates[j + 1]);
        }
        lemma_no_text_candidate_no_text(rest);
    }
}

} // verus!
