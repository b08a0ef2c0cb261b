use crate::split::{head, split_once, tail};
use vstd::hash_map::StringHashMap;
use vstd::prelude::*;

verus! {

/// One request to the key-value store.
pub enum Request {
    /// Look a key up.
    Get { key: String },
    /// Give a key a value.
    Put { key: String, value: String },
    /// Take a key out.
    Del { key: String },
}

/// A request as a plain value.
pub enum RequestView {
    Get { key: Seq<char> },
    Put { key: Seq<char>, value: Seq<char> },
    Del { key: Seq<char> },
}

impl View for Request {
    type V = RequestView;

    open spec fn view(&self) -> RequestView {
        match self {
            Request::Get { key } => RequestView::Get { key: key@ },
            Request::Put { key, value } => RequestView::Put { key: key@, value: value@ },
            Request::Del { key } => RequestView::Del { key: key@ },
        }
    }
}

/// The store's answer to one request.
pub enum Response {
    /// The value found under a key.
    Value { key: String, value: String },
    /// A key was given a value; `previous` is what it held before.
    Put { key: String, value: String, previous: Option<String> },
    /// A key was taken out.
    Del { key: String },
    /// The request could not be read or could not be met.
    Error { msg: String },
}

/// A response as a plain value.
pub enum ResponseView {
    Value { key: Seq<char>, value: Seq<char> },
    Put { key: Seq<char>, value: Seq<char>, previous: Option<Seq<char>> },
    Del { key: Seq<char> },
    Error { msg: Seq<char> },
}

/// An optional text as a plain value.
pub open spec fn text_of(text: Option<String>) -> Option<Seq<char>> {
    match text {
        Some(t) => Some(t@),
        None => None,
    }
}

impl View for Response {
    type V = ResponseView;

    open spec fn view(&self) -> ResponseView {
        match self {
            Response::Value { key, value } => ResponseView::Value { key: key@, value: value@ },
            Response::Put { key, value, previous } => ResponseView::Put {
                key: key@,
                value: value@,
                previous: text_of(*previous),
            },
            Response::Del { key } => ResponseView::Del { key: key@ },
            Response::Error { msg } => ResponseView::Error { msg: msg@ },
        }
    }
}

/// What a request line asks for, or why it cannot be read. The line is cut
/// at its first two spaces at most: a command, a key, and whatever follows.
pub open spec fn parsed(input: Seq<char>) -> Result<RequestView, Seq<char>> {
    let cmd = head(input);
    if cmd == "GET"@ {
        match tail(input) {
            None => Err("GET must be followed by a key"@),
            Some(rest) => if tail(rest) is Some {
                Err("GET's key must not be followed by anything"@)
            } else {
                Ok(RequestView::Get { key: head(rest) })
            },
        }
    } else if cmd == "SET"@ {
        match tail(input) {
            None => Err("SET must be followed by a key"@),
            Some(rest) => match tail(rest) {
                None => Err("SET needs a value"@),
                Some(value) => Ok(RequestView::Put { key: head(rest), value }),
            },
        }
    } else if cmd == "DEL"@ {
        match tail(input) {
            None => Err("GET must be followed by a key"@),
            Some(rest) => if tail(rest) is Some {
                Err("DEl's key must not be followed by anything"@)
            } else {
                Ok(RequestView::Del { key: head(rest) })
            },
        }
    } else {
        Err("unknown command: "@ + cmd)
    }
}

/// What parsing gave, as a plain value.
pub open spec fn parse_view(outcome: Result<Request, String>) -> Result<RequestView, Seq<char>> {
    match outcome {
        Ok(request) => Ok(request@),
        Err(msg) => Err(msg@),
    }
}

/// Whether two texts are the same.
fn same(a: &str, b: &str) -> (equal: bool)
    ensures
        equal == (a@ == b@),
{
    String::from_str(a) == String::from_str(b)
}

impl Request {
    /// Reads one request line.
    pub fn parse(input: &str) -> (outcome: Result<Request, String>)
        ensures
            parse_view(outcome) == parsed(input@),
    {
        let (cmd, after_cmd) = split_once(input);
        if same(cmd, "GET") {
            match after_cmd {
                None => Err(String::from_str("GET must be followed by a key")),
                Some(rest) => {
                    let (key, after_key) = split_once(rest);
                    if after_key.is_some() {
                        Err(String::from_str("GET's key must not be followed by anything"))
                    } else {
                        Ok(Request::Get { key: String::from_str(key) })
                    }
                },
            }
        } else if same(cmd, "SET") {
            match after_cmd {
                None => Err(String::from_str("SET must be followed by a key")),
                Some(rest) => {
                    let (key, after_key) = split_once(rest);
                    match after_key {
                        None => Err(String::from_str("SET needs a value")),
                        Some(value) => Ok(
                            Request::Put {
                                key: String::from_str(key),
                                value: String::from_str(value),
                            },
                        ),
                    }
                },
            }
        } else if same(cmd, "DEL") {
            match after_cmd {
                None => Err(String::from_str("GET must be followed by a key")),
                Some(rest) => {
                    let (key, after_key) = split_once(rest);
                    if after_key.is_some() {
                        Err(String::from_str("DEl's key must not be followed by anything"))
                    } else {
                        Ok(Request::Del { key: String::from_str(key) })
                    }
                },
            }
        } else {
            Err(String::from_str("unknown command: ").concat(cmd))
        }
    }
}

/// The text in which `Debug` formatting shows an optional string.
pub uninterp spec fn debug_form(text: Option<Seq<char>>) -> Seq<char>;

/// Formats an optional string with the standard library's `Debug`, as `{:?}`
/// does. The contract only gives the result its name, `debug_form`; what the
/// text holds is the standard library's to say.
#[verifier::external_body]
fn debug_text(text: &Option<String>) -> (shown: String)
    ensures
        shown@ == debug_form(text_of(*text)),
{
    format!("{:?}", text)
}

/// The earlier value that a response reports, if it reports one.
pub open spec fn previous_of(response: ResponseView) -> Option<Seq<char>> {
    match response {
        ResponseView::Put { previous, .. } => previous,
        _ => None,
    }
}

/// The line that carries `response`, where `shown` is the text that stands
/// for the earlier value.
pub open spec fn rendered(response: ResponseView, shown: Seq<char>) -> Seq<char> {
    match response {
        ResponseView::Value { key, value } => key + " = "@ + value,
        ResponseView::Put { key, value, .. } => "set "@ + key + " = `"@ + value
            + "`, previous: "@ + shown,
        ResponseView::Del { key } => "deleted "@ + key + "!"@,
        ResponseView::Error { msg } => "error: "@ + msg,
    }
}

impl Response {
    /// The line that carries this response, with `shown` standing for the
    /// earlier value.
    pub fn render(&self, shown: &str) -> (line: String)
        ensures
            line@ == rendered(self@, shown@),
    {
        match self {
            Response::Value { key, value } => String::from_str(key.as_str()).concat(" = ").concat(
                value.as_str(),
            ),
            Response::Put { key, value, previous: _ } => String::from_str("set ").concat(
                key.as_str(),
            ).concat(" = `").concat(value.as_str()).concat("`, previous: ").concat(shown),
            Response::Del { key } => String::from_str("deleted ").concat(key.as_str()).concat("!"),
            Response::Error { msg } => String::from_str("error: ").concat(msg.as_str()),
        }
    }

    /// The line that carries this response; the earlier value of a key is
    /// shown in `Debug` form.
    pub fn serialize(&self) -> (line: String)
        ensures
            line@ == rendered(self@, debug_form(previous_of(self@))),
    {
        match self {
            Response::Put { key: _, value: _, previous } => {
                let shown = debug_text(previous);
                self.render(shown.as_str())
            },
            _ => self.render(""),
        }
    }
}

/// The store: keys and the values they hold.
pub struct Database {
    map: StringHashMap<String>,
}

impl View for Database {
    type V = Map<Seq<char>, Seq<char>>;

    closed spec fn view(&self) -> Map<Seq<char>, Seq<char>> {
        self.map@.map_values(|value: String| value@)
    }
}

impl Database {
    /// An empty store.
    pub fn new() -> (db: Database)
        ensures
            db@ == Map::<Seq<char>, Seq<char>>::empty(),
    {
        let db = Database { map: StringHashMap::new() };
        assert(db@ =~= Map::<Seq<char>, Seq<char>>::empty());
        db
    }

    /// The value that `key` holds, if it holds one.
    pub fn get(&self, key: &str) -> (value: Option<String>)
        ensures
            text_of(value) == (if self@.contains_key(key@) {
                Some(self@[key@])
            } else {
                None
            }),
    {
        match self.map.get(key) {
            Some(found) => Some(found.clone()),
            None => None,
        }
    }

    /// Gives `key` the value `value`; hands back what it held before.
    pub fn insert(&mut self, key: String, value: String) -> (previous: Option<String>)
        ensures
            final(self)@ == old(self)@.insert(key@, value@),
            text_of(previous) == (if old(self)@.contains_key(key@) {
                Some(old(self)@[key@])
            } else {
                None
            }),
    {
        let previous = self.get(key.as_str());
        self.map.insert(key, value);
        assert(self@ =~= old(self)@.insert(key@, value@));
        previous
    }

    /// Takes `key` out; says whether it was there.
    pub fn remove(&mut self, key: &str) -> (found: bool)
        ensures
            found == old(self)@.contains_key(key@),
            final(self)@ == old(self)@.remove(key@),
    {
        let found = self.map.contains_key(key);
        self.map.remove(key);
        assert(self@ =~= old(self)@.remove(key@));
        found
    }
}

/// The store after a request and the answer to it; `request` is what
/// reading the line gave.
pub open spec fn handled(
    store: Map<Seq<char>, Seq<char>>,
    request: Result<RequestView, Seq<char>>,
) -> (Map<Seq<char>, Seq<char>>, ResponseView) {
    match request {
        Err(msg) => (store, ResponseView::Error { msg }),
        Ok(RequestView::Get { key }) => if store.contains_key(key) {
            (store, ResponseView::Value { key, value: store[key] })
        } else {
            (store, ResponseView::Error { msg: "no key "@ + key })
        },
        Ok(RequestView::Put { key, value }) => (
            store.insert(key, value),
            ResponseView::Put {
                key,
                value,
                previous: if store.contains_key(key) {
                    Some(store[key])
                } else {
                    None
                },
            },
        ),
        Ok(RequestView::Del { key }) => if store.contains_key(key) {
            (store.remove(key), ResponseView::Del { key })
        } else {
            (store, ResponseView::Error { msg: "no key "@ + key })
        },
    }
}

/// Reads one request line, carries it out on the store, and answers it.
pub fn handle_request(line: &str, db: &mut Database) -> (response: Response)
    ensures
        (final(db)@, response@) == handled(old(db)@, parsed(line@)),
{
    let request = match Request::parse(line) {
        Ok(request) => request,
        Err(msg) => {
            return Response::Error { msg };
        },
    };
    match request {
        Request::Get { key } => match db.get(key.as_str()) {
            Some(value) => Response::Value { key, value },
            None => Response::Error { msg: String::from_str("no key ").concat(key.as_str()) },
        },
        Request::Put { key, value } => {
            let previous = db.insert(key.clone(), value.clone());
            Response::Put { key, value, previous }
        },
        Request::Del { key } => {
            if db.remove(key.as_str()) {
                Response::Del { key }
            } else {
                Response::Error { msg: String::from_str("no key ").concat(key.as_str()) }
            }
        },
    }
}

} // verus!
