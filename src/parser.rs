use vstd::prelude::*;
use crate::history::string_views;

verus! {

/// What is known of the user who asks.
pub struct UserProfile {
    pub expertise_lvl: String,
    pub communication_style: String,
}

/// The enriched request built for one user message.
pub struct RequestStructure {
    pub request: String,
    pub cache: Vec<String>,
    pub context: String,
    pub viewpoints: Vec<String>,
    pub user_profile: UserProfile,
}

/// The mathematical value of a request structure.
pub ghost struct Payload {
    pub request: Seq<char>,
    pub cache: Seq<Seq<char>>,
    pub context: Seq<char>,
    pub viewpoints: Seq<Seq<char>>,
    pub expertise_lvl: Seq<char>,
    pub communication_style: Seq<char>,
}

impl View for RequestStructure {
    type V = Payload;

    open spec fn view(&self) -> Payload {
        Payload {
            request: self.request@,
            cache: string_views(self.cache@),
            context: self.context@,
            viewpoints: string_views(self.viewpoints@),
            expertise_lvl: self.user_profile.expertise_lvl@,
            communication_style: self.user_profile.communication_style@,
        }
    }
}

/// A new value for one field of a request structure.
pub enum FieldUpdate {
    Request(String),
    Cache(Vec<String>),
    Context(String),
    Viewpoints(Vec<String>),
    ExpertiseLvl(String),
    CommunicationStyle(String),
}

/// The payload with the one field that `u` names replaced.
pub open spec fn updated(p: Payload, u: FieldUpdate) -> Payload {
    match u {
        FieldUpdate::Request(v) => Payload { request: v@, ..p },
        FieldUpdate::Cache(v) => Payload { cache: string_views(v@), ..p },
        FieldUpdate::Context(v) => Payload { context: v@, ..p },
        FieldUpdate::Viewpoints(v) => Payload { viewpoints: string_views(v@), ..p },
        FieldUpdate::ExpertiseLvl(v) => Payload { expertise_lvl: v@, ..p },
        FieldUpdate::CommunicationStyle(v) => Payload { communication_style: v@, ..p },
    }
}

/// The payload every request starts from: all fields empty.
pub open spec fn empty_payload() -> Payload {
    Payload {
        request: Seq::empty(),
        cache: Seq::empty(),
        context: Seq::empty(),
        viewpoints: Seq::empty(),
        expertise_lvl: Seq::empty(),
        communication_style: Seq::empty(),
    }
}

/// The view of an optional string.
pub open spec fn opt_view(o: Option<String>) -> Option<Seq<char>> {
    match o {
        Some(s) => Some(s@),
        None => None,
    }
}

/// The views of a sequence of optional strings.
pub open spec fn opt_views(s: Seq<Option<String>>) -> Seq<Option<Seq<char>>> {
    s.map_values(|o: Option<String>| opt_view(o))
}

/// The strings present in `s`, in order; the missing ones are left out.
pub open spec fn present(s: Seq<Option<Seq<char>>>) -> Seq<Seq<char>>
    decreases s.len(),
{
    if s.len() == 0 {
        Seq::empty()
    } else {
        match s.last() {
            Some(t) => present(s.drop_last()).push(t),
            None => present(s.drop_last()),
        }
    }
}

/// The string under `key` of the JSON object that `text` holds, if it has one.
pub uninterp spec fn json_string_member(text: Seq<char>, key: Seq<char>) -> Option<Seq<char>>;

/// The elements of the array under `key` of the JSON object that `text` holds, if it
/// has one: each one a string, or missing where the element is not a string.
pub uninterp spec fn json_array_member(text: Seq<char>, key: Seq<char>) -> Option<Seq<Option<Seq<char>>>>;

/// Relies on serde_json: `from_str` into a `Value`, then `Value::get` and `Value::as_str`.
/// None when the text is not JSON, is not an object, lacks the key, or holds no string
/// under it.
#[verifier::external_body]
fn json_string_field(text: &str, key: &str) -> (r: Option<String>)
    ensures
        opt_view(r) == json_string_member(text@, key@),
{
    let value: serde_json::Value = serde_json::from_str(text).ok()?;
    value.get(key)?.as_str().map(|s| s.to_string())
}

/// Relies on serde_json: `from_str` into a `Value`, then `Value::get`, `Value::as_array`
/// and `Value::as_str` on each element. None when the text is not JSON, is not an
/// object, lacks the key, or holds no array under it.
#[verifier::external_body]
fn json_array_field(text: &str, key: &str) -> (r: Option<Vec<Option<String>>>)
    ensures
        r matches Some(v) ==> json_array_member(text@, key@) == Some(opt_views(v@)),
        r is None <==> json_array_member(text@, key@) is None,
{
    let value: serde_json::Value = serde_json::from_str(text).ok()?;
    let items = value.get(key)?.as_array()?;
    Some(items.iter().map(|v| v.as_str().map(|s| s.to_string())).collect())
}

/// Sets the field that `update` names and leaves every other field as it was.
pub fn update_request_structure(request_structure: &mut RequestStructure, update: FieldUpdate)
    ensures
        final(request_structure)@ == updated(old(request_structure)@, update),
{
    match update {
        FieldUpdate::Request(v) => request_structure.request = v,
        FieldUpdate::Cache(v) => request_structure.cache = v,
        FieldUpdate::Context(v) => request_structure.context = v,
        FieldUpdate::Viewpoints(v) => request_structure.viewpoints = v,
        FieldUpdate::ExpertiseLvl(v) => request_structure.user_profile.expertise_lvl = v,
        FieldUpdate::CommunicationStyle(v) => request_structure.user_profile.communication_style = v,
    }
}

impl RequestStructure {
    /// A request structure with every field empty.
    pub fn new() -> (r: RequestStructure)
        ensures
            r@ == empty_payload(),
    {
        let r = RequestStructure {
            request: String::new(),
            cache: Vec::new(),
            context: String::new(),
            viewpoints: Vec::new(),
            user_profile: UserProfile { expertise_lvl: String::new(), communication_style: String::new() },
        };
        assert(r@.cache =~= Seq::<Seq<char>>::empty());
        assert(r@.viewpoints =~= Seq::<Seq<char>>::empty());
        r
    }
}

/// The strings among `items`, in order; the missing ones are dropped.
pub fn string_items(items: Vec<Option<String>>) -> (r: Vec<String>)
    ensures
        string_views(r@) == present(opt_views(items@)),
{
    let mut r: Vec<String> = Vec::new();
    let n = items.len();
    let mut i: usize = 0;
    while i < n
        invariant
            n == items@.len(),
            i <= n,
            string_views(r@) == present(opt_views(items@).take(i as int)),
        decreases n - i,
    {
        let ghost before = r@;
        let ghost taken = opt_views(items@).take(i + 1);
        assert(taken.drop_last() =~= opt_views(items@).take(i as int));
        match &items[i] {
            Some(s) => {
                r.push(s.clone());
                assert(string_views(r@) =~= string_views(before).push(s@));
            },
            None => {},
        }
        i = i + 1;
    }
    assert(opt_views(items@).take(n as int) =~= opt_views(items@));
    r
}

/// The payload after a viewpoint response whose `viewpoints` member was read as `items`:
/// when it held an array, its strings replace the viewpoints; otherwise nothing changes.
pub open spec fn with_viewpoints(p: Payload, items: Option<Seq<Option<Seq<char>>>>) -> Payload {
    match items {
        Some(v) => Payload { viewpoints: present(v), ..p },
        None => p,
    }
}

/// The payload after a profile response whose members were read as `expertise` and
/// `style`: each one present replaces its field; each one missing leaves it.
pub open spec fn with_profile(p: Payload, expertise: Option<Seq<char>>, style: Option<Seq<char>>) -> Payload {
    Payload {
        expertise_lvl: match expertise {
            Some(e) => e,
            None => p.expertise_lvl,
        },
        communication_style: match style {
            Some(c) => c,
            None => p.communication_style,
        },
        ..p
    }
}

/// Applies the `viewpoints` member of a viewpoint response, already read from its JSON.
pub fn apply_viewpoints(request_structure: &mut RequestStructure, items: Option<Vec<Option<String>>>)
    ensures
        final(request_structure)@ == with_viewpoints(
            old(request_structure)@,
            match items {
                Some(v) => Some(opt_views(v@)),
                None => None,
            },
        ),
{
    match items {
        Some(v) => {
            let strings = string_items(v);
            update_request_structure(request_structure, FieldUpdate::Viewpoints(strings));
        },
        None => {},
    }
}

/// Applies the members of a profile response, already read from its JSON.
pub fn apply_user_profile(
    request_structure: &mut RequestStructure,
    expertise: Option<String>,
    style: Option<String>,
)
    ensures
        final(request_structure)@ == with_profile(
            old(request_structure)@,
            opt_view(expertise),
            opt_view(style),
        ),
{
    match expertise {
        Some(e) => update_request_structure(request_structure, FieldUpdate::ExpertiseLvl(e)),
        None => {},
    }
    match style {
        Some(c) => update_request_structure(request_structure, FieldUpdate::CommunicationStyle(c)),
        None => {},
    }
}

/// Reads the viewpoint response: the strings of its `viewpoints` array replace the
/// viewpoints; text that is not such JSON leaves the structure unchanged.
pub fn add_viewpoints(request_structure: &mut RequestStructure, response: &str)
    ensures
        final(request_structure)@ == with_viewpoints(
            old(request_structure)@,
            json_array_member(response@, "viewpoints"@),
        ),
{
    let items = json_array_field(response, "viewpoints");
    apply_viewpoints(request_structure, items);
}

/// Reads the profile response: its `expertise_lvl` and `communication_style` strings,
/// each on its own, replace the matching profile field.
pub fn add_user_profile(request_structure: &mut RequestStructure, response: &str)
    ensures
        final(request_structure)@ == with_profile(
            old(request_structure)@,
            json_string_member(response@, "expertise_lvl"@),
            json_string_member(response@, "communication_style"@),
        ),
{
    let expertise = json_string_field(response, "expertise_lvl");
    let style = json_string_field(response, "communication_style");
    apply_user_profile(request_structure, expertise, style);
}

/// A viewpoint or profile response that yields nothing readable (malformed JSON, or
/// JSON without the expected members) leaves every field of the payload as it was.
pub proof fn lemma_unreadable_response_keeps_payload(p: Payload)
    ensures
        with_viewpoints(p, None) == p,
        with_profile(p, None, None) == p,
{
}

/// A profile response that carries only a communication style updates that style and
/// leaves the expertise level untouched; the same holds the other way round.
pub proof fn lemma_profile_fields_independent(p: Payload, value: Seq<char>)
    ensures
        with_profile(p, None, Some(value)).expertise_lvl == p.expertise_lvl,
        with_profile(p, None, Some(value)).communication_style == value,
        with_profile(p, Some(value), None).communication_style == p.communication_style,
        with_profile(p, Some(value), None).expertise_lvl == value,
{
}

} // verus!
