//! The reader tool: what it tells of itself, the address it fetches, and how the text that
//! comes back is read. The fetching is done outside this library.

use crate::calculator::{make_object_schema, names_of, object_schema};
use crate::json::{Json, JsonView};
use crate::text::{
    append, has_prefix, join, joined, lines, lines_of, starts_with, strip_prefix, texts, trim,
    trim_start, trim_start_of, trimmed,
};
use crate::tools::{ToolDescriptor, ToolView};
use crate::validation::described;
use vstd::prelude::*;

verus! {

/// The address of the reader.
pub const READER_URL: &'static str = "https://r.jina.ai/";

/// The parameters of the reader.
#[derive(Debug)]
pub struct JinaReaderParams {
    /// The address of the page to fetch.
    pub url: String,
    /// Whether a cached copy is to be passed over.
    pub no_cache: Option<bool>,
}

/// What the reader returned.
#[derive(Debug)]
pub struct JinaReaderResponse {
    pub title: Option<String>,
    pub url_source: Option<String>,
    pub published_time: Option<String>,
    pub markdown: Option<String>,
    pub raw: String,
}

/// What is wrong with the parameters of the reader, if anything: they must be an object with
/// a string `url`; `no_cache`, where it is there and not `null`, must be a boolean.
pub open spec fn reader_fault(parameters: JsonView) -> Option<Seq<char>> {
    if !(parameters is Object) {
        Some("invalid type: expected an object"@)
    } else {
        match parameters.member("url"@) {
            None => Some("missing field `url`"@),
            Some(u) => if !(u is String) {
                Some("invalid type for `url`: expected a string"@)
            } else {
                match parameters.member("no_cache"@) {
                    None => None,
                    Some(c) => if c is Null || c is Bool {
                        None
                    } else {
                        Some("invalid type for `no_cache`: expected a boolean"@)
                    },
                }
            },
        }
    }
}

/// Whether the parameters of the reader ask to pass over a cached copy.
pub open spec fn reader_no_cache(parameters: JsonView) -> Option<bool> {
    match parameters.member("no_cache"@) {
        Some(JsonView::Bool(b)) => Some(b),
        _ => None,
    }
}

impl JinaReaderParams {
    /// Reads the parameters of the reader.
    pub fn from_json(parameters: &Json) -> (r: Result<JinaReaderParams, String>)
        ensures
            match r {
                Ok(p) => reader_fault(parameters@) is None && parameters@.text_member("url"@)
                    == Some(p.url@) && p.no_cache == reader_no_cache(parameters@),
                Err(fault) => reader_fault(parameters@) == Some(fault@),
            },
    {
        if !parameters.is_object() {
            return Err("invalid type: expected an object".to_owned());
        }
        let url = match parameters.get("url") {
            None => {
                return Err("missing field `url`".to_owned());
            },
            Some(u) => match u.as_str() {
                None => {
                    return Err("invalid type for `url`: expected a string".to_owned());
                },
                Some(text) => text.to_owned(),
            },
        };
        let no_cache = match parameters.get("no_cache") {
            None => None,
            Some(c) => match c {
                Json::Null => None,
                Json::Bool(b) => Some(*b),
                _ => {
                    return Err("invalid type for `no_cache`: expected a boolean".to_owned());
                },
            },
        };
        Ok(JinaReaderParams { url, no_cache })
    }
}

/// The address from which the reader fetches `url`: `url` itself where it is an address of
/// the reader, else the reader's address with `url` after it.
pub open spec fn reader_target(url: Seq<char>) -> Seq<char> {
    if has_prefix(url, READER_URL@) {
        url
    } else {
        READER_URL@ + url
    }
}

/// The address from which the reader fetches `url`.
pub fn jina_target_url(url: &str) -> (target: String)
    ensures
        target@ == reader_target(url@),
{
    if starts_with(url, READER_URL) {
        url.to_owned()
    } else {
        append(READER_URL, url)
    }
}

/// What was read of a reader's text so far.
pub struct ReaderState {
    pub title: Option<Seq<char>>,
    pub url_source: Option<Seq<char>>,
    pub published_time: Option<Seq<char>>,
    pub markdown: Seq<Seq<char>>,
    pub in_markdown: bool,
}

/// What follows the first `n` characters of a line.
pub open spec fn after(line: Seq<char>, n: nat) -> Seq<char> {
    line.subrange(n as int, line.len() as int)
}

impl ReaderState {
    /// The state before the first line.
    pub open spec fn start() -> ReaderState {
        ReaderState {
            title: None,
            url_source: None,
            published_time: None,
            markdown: Seq::empty(),
            in_markdown: false,
        }
    }

    /// The state after one more line. A line that starts with `Title: `, `URL Source: ` or
    /// `Published Time: ` sets that field to the rest of the line, without white space
    /// around it. A line that starts with `Markdown Content:` opens the markdown; what
    /// follows on that line, without white space before it, is its first line unless it is
    /// empty. Every other line is a line of the markdown once that is open.
    pub open spec fn read(self, line: Seq<char>) -> ReaderState {
        if has_prefix(line, "Title: "@) {
            ReaderState { title: Some(trimmed(after(line, "Title: "@.len()))), ..self }
        } else if has_prefix(line, "URL Source: "@) {
            ReaderState { url_source: Some(trimmed(after(line, "URL Source: "@.len()))), ..self }
        } else if has_prefix(line, "Published Time: "@) {
            ReaderState {
                published_time: Some(trimmed(after(line, "Published Time: "@.len()))),
                ..self
            }
        } else if has_prefix(line, "Markdown Content:"@) {
            let first = trim_start_of(after(line, "Markdown Content:"@.len()));
            ReaderState {
                markdown: if first.len() > 0 {
                    self.markdown.push(first)
                } else {
                    self.markdown
                },
                in_markdown: true,
                ..self
            }
        } else if self.in_markdown {
            ReaderState { markdown: self.markdown.push(line), ..self }
        } else {
            self
        }
    }

    /// The state after `lines`, read in order.
    pub open spec fn read_all(lines: Seq<Seq<char>>) -> ReaderState
        decreases lines.len(),
    {
        if lines.len() == 0 {
            ReaderState::start()
        } else {
            ReaderState::read_all(lines.drop_last()).read(lines.last())
        }
    }
}

/// The text that an optional string holds.
pub open spec fn text_of(s: Option<String>) -> Option<Seq<char>> {
    match s {
        Some(t) => Some(t@),
        None => None,
    }
}

/// Reads the text that the reader returned: the fields of its head, and the markdown as
/// its lines joined by line feeds, if there is any.
pub fn parse_jina_response(raw: &str) -> (response: JinaReaderResponse)
    ensures
        response.raw@ == raw@,
        ({
            let state = ReaderState::read_all(lines_of(raw@));
            &&& text_of(response.title) == state.title
            &&& text_of(response.url_source) == state.url_source
            &&& text_of(response.published_time) == state.published_time
            &&& text_of(response.markdown) == if state.markdown.len() == 0 {
                None
            } else {
                Some(joined(state.markdown, "\n"@))
            }
        }),
{
    let all = lines(raw);
    let mut title: Option<String> = None;
    let mut url_source: Option<String> = None;
    let mut published_time: Option<String> = None;
    let mut markdown: Vec<String> = Vec::new();
    let mut in_markdown = false;
    let mut i: usize = 0;
    proof {
        assert(texts(all@).take(0) =~= Seq::<Seq<char>>::empty());
        assert(texts(markdown@) =~= Seq::<Seq<char>>::empty());
    }
    while i < all.len()
        invariant
            i <= all.len(),
            ReaderState::read_all(texts(all@).take(i as int)) == (ReaderState {
                title: text_of(title),
                url_source: text_of(url_source),
                published_time: text_of(published_time),
                markdown: texts(markdown@),
                in_markdown,
            }),
        decreases all.len() - i,
    {
        let line = all[i].as_str();
        proof {
            let upto = texts(all@).take(i + 1);
            assert(upto.drop_last() =~= texts(all@).take(i as int));
            assert(upto.last() == line@);
        }
        let ghost before = texts(markdown@);
        match strip_prefix(line, "Title: ") {
            Some(rest) => {
                title = Some(trim(rest.as_str()));
            },
            None => match strip_prefix(line, "URL Source: ") {
                Some(rest) => {
                    url_source = Some(trim(rest.as_str()));
                },
                None => match strip_prefix(line, "Published Time: ") {
                    Some(rest) => {
                        published_time = Some(trim(rest.as_str()));
                    },
                    None => match strip_prefix(line, "Markdown Content:") {
                        Some(rest) => {
                            in_markdown = true;
                            let first = trim_start(rest.as_str());
                            if !first.as_str().is_empty() {
                                proof {
                                    assert(texts(markdown@.push(first)) =~= before.push(first@));
                                }
                                markdown.push(first);
                            }
                        },
                        None => {
                            if in_markdown {
                                let copy = line.to_owned();
                                proof {
                                    assert(texts(markdown@.push(copy)) =~= before.push(copy@));
                                }
                                markdown.push(copy);
                            }
                        },
                    },
                },
            },
        }
        i = i + 1;
    }
    proof {
        assert(texts(all@).take(all.len() as int) =~= texts(all@));
    }
    let text: Option<String> = if markdown.len() == 0 {
        None
    } else {
        Some(join(markdown.as_slice(), "\n"))
    };
    JinaReaderResponse { title, url_source, published_time, markdown: text, raw: raw.to_owned() }
}

/// An optional text as JSON: the string, or `null`.
pub open spec fn nullable(text: Option<Seq<char>>) -> JsonView {
    match text {
        Some(t) => JsonView::String(t),
        None => JsonView::Null,
    }
}

fn make_nullable(text: &Option<String>) -> (j: Json)
    ensures
        j@ == nullable(text_of(*text)),
{
    match text {
        Some(t) => Json::string(t.as_str()),
        None => Json::Null,
    }
}

impl JinaReaderResponse {
    /// The response as the tool's output: an object with all five fields, `null` for a field
    /// that is not there.
    pub fn to_json(&self) -> (output: Json)
        ensures
            output@ == JsonView::Object(
                Map::empty().insert("title"@, nullable(text_of(self.title))).insert(
                    "url_source"@,
                    nullable(text_of(self.url_source)),
                ).insert("published_time"@, nullable(text_of(self.published_time))).insert(
                    "markdown"@,
                    nullable(text_of(self.markdown)),
                ).insert("raw"@, JsonView::String(self.raw@)),
            ),
    {
        Json::object().with("title", make_nullable(&self.title)).with(
            "url_source",
            make_nullable(&self.url_source),
        ).with("published_time", make_nullable(&self.published_time)).with(
            "markdown",
            make_nullable(&self.markdown),
        ).with("raw", Json::string(self.raw.as_str()))
    }
}

/// The schema of the reader's parameters.
pub open spec fn reader_schema() -> JsonView {
    object_schema(
        JsonView::object2(
            "url"@,
            described("string"@, "Fully qualified URL to fetch"@),
            "no_cache"@,
            described("boolean"@, "Set true to bypass cached snapshot"@),
        ),
        seq!["url"@],
    )
}

/// What the reader tool tells of itself.
pub fn jina_reader_descriptor() -> (tool: ToolDescriptor)
    ensures
        tool@ == (ToolView {
            name: "jina_reader"@,
            description: "Fetch markdown content for a URL using the Jina reader API"@,
            parameters: reader_schema(),
        }),
{
    let required: [&'static str; 1] = ["url"];
    proof {
        assert(names_of(required@) =~= seq!["url"@]);
    }
    let url = Json::object().with("type", Json::string("string")).with(
        "description",
        Json::string("Fully qualified URL to fetch"),
    );
    let no_cache = Json::object().with("type", Json::string("boolean")).with(
        "description",
        Json::string("Set true to bypass cached snapshot"),
    );
    let properties = Json::object().with("url", url).with("no_cache", no_cache);
    ToolDescriptor::new(
        "jina_reader",
        "Fetch markdown content for a URL using the Jina reader API",
        make_object_schema(properties, required.as_slice()),
    )
}

} // verus!
