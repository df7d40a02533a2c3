//! The shared error taxonomy: a closed enum of error categories, two
//! projections of it (a redacted, client-safe view and a full, operator-facing
//! view), and its fixed mapping to HTTP status codes.

use vstd::prelude::*;

verus! {

/// A category-to-messages mapping, kept as an association vector so that the
/// order of insertion is preserved; keys stay unique, as in a map.
pub struct ErrorsType {
    entries: Vec<(String, Vec<String>)>,
}

/// The mathematical content of a message list.
pub open spec fn msgs_view(v: Seq<String>) -> Seq<Seq<char>> {
    v.map_values(|m: String| m@)
}

/// The mathematical content of an association vector of entries.
pub open spec fn entries_view(s: Seq<(String, Vec<String>)>) -> Seq<(Seq<char>, Seq<Seq<char>>)> {
    s.map_values(|p: (String, Vec<String>)| (p.0@, msgs_view(p.1@)))
}

impl View for ErrorsType {
    type V = Seq<(Seq<char>, Seq<Seq<char>>)>;

    closed spec fn view(&self) -> Self::V {
        entries_view(self.entries@)
    }
}

/// A mapping holding exactly one category with exactly one message.
pub open spec fn singleton_errors(key: Seq<char>, message: Seq<char>) -> Seq<
    (Seq<char>, Seq<Seq<char>>),
> {
    seq![(key, seq![message])]
}

/// True when no category key occurs twice.
pub open spec fn keys_unique(s: Seq<(Seq<char>, Seq<Seq<char>>)>) -> bool {
    forall|i: int, j: int| 0 <= i < j < s.len() ==> (#[trigger] s[i]).0 != (#[trigger] s[j]).0
}

/// Map-style insertion into an association sequence: the first entry with
/// the key is replaced in place, a fresh key is appended at the end.
pub open spec fn spec_insert_entry(
    s: Seq<(Seq<char>, Seq<Seq<char>>)>,
    key: Seq<char>,
    messages: Seq<Seq<char>>,
) -> Seq<(Seq<char>, Seq<Seq<char>>)>
    decreases s.len(),
{
    if s.len() == 0 {
        seq![(key, messages)]
    } else if s[0].0 == key {
        seq![(key, messages)] + s.skip(1)
    } else {
        seq![s[0]] + spec_insert_entry(s.skip(1), key, messages)
    }
}

proof fn lemma_insert_replaces_at(
    s: Seq<(Seq<char>, Seq<Seq<char>>)>,
    key: Seq<char>,
    messages: Seq<Seq<char>>,
    i: int,
)
    requires
        0 <= i < s.len(),
        forall|j: int| 0 <= j < i ==> (#[trigger] s[j]).0 != key,
        s[i].0 == key,
    ensures
        spec_insert_entry(s, key, messages) == s.update(i, (key, messages)),
    decreases i,
{
    if i == 0 {
        assert(spec_insert_entry(s, key, messages) =~= s.update(0, (key, messages)));
    } else {
        lemma_insert_replaces_at(s.skip(1), key, messages, i - 1);
        assert(spec_insert_entry(s, key, messages) =~= s.update(i, (key, messages)));
    }
}

proof fn lemma_insert_appends(
    s: Seq<(Seq<char>, Seq<Seq<char>>)>,
    key: Seq<char>,
    messages: Seq<Seq<char>>,
)
    requires
        forall|j: int| 0 <= j < s.len() ==> (#[trigger] s[j]).0 != key,
    ensures
        spec_insert_entry(s, key, messages) == s + seq![(key, messages)],
    decreases s.len(),
{
    if s.len() == 0 {
        assert(spec_insert_entry(s, key, messages) =~= s + seq![(key, messages)]);
    } else {
        lemma_insert_appends(s.skip(1), key, messages);
        assert(spec_insert_entry(s, key, messages) =~= s + seq![(key, messages)]);
    }
}

/// Builds the one-category, one-message mapping used by both projections.
pub fn new_error(key: &str, value: &str) -> (r: ErrorsType)
    ensures
        r@ == singleton_errors(key@, value@),
        r.wf(),
{
    let k = key.to_owned();
    let v = value.to_owned();
    let mut msgs: Vec<String> = Vec::new();
    msgs.push(v);
    let mut entries: Vec<(String, Vec<String>)> = Vec::new();
    entries.push((k, msgs));
    let r = ErrorsType { entries };
    proof {
        assert(msgs_view(r.entries@[0].1@) =~= seq![value@]);
        assert(r@ =~= singleton_errors(key@, value@));
    }
    r
}

fn clone_messages(v: &Vec<String>) -> (r: Vec<String>)
    ensures
        msgs_view(r@) == msgs_view(v@),
{
    let mut r: Vec<String> = Vec::new();
    let mut i: usize = 0;
    while i < v.len()
        invariant
            i <= v.len(),
            r@.len() == i as int,
            forall|j: int| 0 <= j < i as int ==> #[trigger] r@[j]@ == v@[j]@,
        decreases v.len() - i,
    {
        let s = v[i].clone();
        r.push(s);
        i += 1;
    }
    proof {
        assert(msgs_view(r@) =~= msgs_view(v@));
    }
    r
}

impl ErrorsType {
    /// True when no category key occurs twice; every constructor of this type
    /// establishes it and `insert_entry` preserves it.
    pub open spec fn wf(&self) -> bool {
        keys_unique(self@)
    }

    /// An empty mapping.
    pub fn new() -> (r: ErrorsType)
        ensures
            r@ == Seq::<(Seq<char>, Seq<Seq<char>>)>::empty(),
            r.wf(),
    {
        let r = ErrorsType { entries: Vec::new() };
        proof {
            assert(r@ =~= Seq::<(Seq<char>, Seq<Seq<char>>)>::empty());
        }
        r
    }

    /// The entries, in insertion order.
    pub fn entries(&self) -> (r: &Vec<(String, Vec<String>)>)
        ensures
            entries_view(r@) == self@,
    {
        &self.entries
    }

    /// Puts a category with its messages into the mapping, as a map would:
    /// an existing key keeps its place and gets the new messages, a fresh
    /// key goes to the end.
    pub fn insert_entry(&mut self, key: String, messages: Vec<String>)
        ensures
            final(self)@ == spec_insert_entry(old(self)@, key@, msgs_view(messages@)),
            old(self).wf() ==> final(self).wf(),
    {
        let ghost orig: Seq<(Seq<char>, Seq<Seq<char>>)> = self@;
        let ghost kk: Seq<char> = key@;
        let ghost mm: Seq<Seq<char>> = msgs_view(messages@);
        let mut i: usize = 0;
        while i < self.entries.len()
            invariant
                i <= self.entries.len(),
                self@ == orig,
                self.entries@ == old(self).entries@,
                kk == key@,
                mm == msgs_view(messages@),
                forall|k: int| 0 <= k < i as int ==> (#[trigger] orig[k]).0 != kk,
            decreases self.entries.len() - i,
        {
            if self.entries[i].0 == key {
                proof {
                    assert(orig[i as int].0 == kk);
                    lemma_insert_replaces_at(orig, kk, mm, i as int);
                }
                self.entries[i] = (key, messages);
                proof {
                    assert(self@ =~= orig.update(i as int, (kk, mm)));
                    assert(forall|x: int|
                        0 <= x < self@.len() ==> (#[trigger] self@[x]).0 == orig[x].0);
                    if keys_unique(orig) {
                        assert(keys_unique(self@));
                    }
                }
                return;
            }
            i += 1;
        }
        proof {
            lemma_insert_appends(orig, kk, mm);
        }
        self.entries.push((key, messages));
        proof {
            assert(self@ =~= orig + seq![(kk, mm)]);
            if keys_unique(orig) {
                assert(keys_unique(self@));
            }
        }
    }

    /// A deep copy, entry by entry.
    pub fn duplicate(&self) -> (r: ErrorsType)
        ensures
            r@ == self@,
    {
        let mut entries: Vec<(String, Vec<String>)> = Vec::new();
        let mut i: usize = 0;
        while i < self.entries.len()
            invariant
                i <= self.entries.len(),
                entries@.len() == i as int,
                forall|j: int|
                    0 <= j < i as int ==> #[trigger] entries@[j].0@ == self.entries@[j].0@
                        && msgs_view(entries@[j].1@) == msgs_view(self.entries@[j].1@),
            decreases self.entries.len() - i,
        {
            let key = self.entries[i].0.clone();
            let msgs = clone_messages(&self.entries[i].1);
            entries.push((key, msgs));
            i += 1;
        }
        let r = ErrorsType { entries };
        proof {
            assert(r@ =~= self@);
        }
        r
    }
}

/// The closed set of error categories used throughout the system.
pub enum CustomError {
    Authorization(String),
    NotFound(String),
    Conversion(String),
    ExistAccount(String),
    Messages(ErrorsType),
    Validate(ErrorsType),
    Database(String),
    Elastic(String),
    System(String),
    Json(),
    Other(String),
}

/// The client-safe projection: infrastructure categories are redacted to a
/// fixed generic message, caller-authored mappings pass through unchanged.
pub open spec fn spec_user_errors(e: CustomError) -> Seq<(Seq<char>, Seq<Seq<char>>)> {
    match e {
        CustomError::Authorization(m) => singleton_errors("authorization"@, m@),
        CustomError::Messages(errors) => errors@,
        CustomError::Validate(errors) => errors@,
        CustomError::Conversion(m) => singleton_errors("conversion"@, m@),
        CustomError::NotFound(m) => singleton_errors("notfound"@, m@),
        CustomError::ExistAccount(m) => singleton_errors("account"@, m@),
        CustomError::Database(_) => singleton_errors("database"@, "server error"@),
        CustomError::Elastic(_) => singleton_errors("elastic"@, "server error"@),
        CustomError::System(_) => singleton_errors("system"@, "server error"@),
        CustomError::Other(_) => singleton_errors("other"@, "server error"@),
        CustomError::Json() => singleton_errors("json"@, "error json format"@),
    }
}

/// The operator-facing projection: the same category keys, with the original
/// internal message preserved for the infrastructure categories.
pub open spec fn spec_system_errors(e: CustomError) -> Seq<(Seq<char>, Seq<Seq<char>>)> {
    match e {
        CustomError::Authorization(m) => singleton_errors("authorization"@, m@),
        CustomError::Messages(errors) => errors@,
        CustomError::Validate(errors) => errors@,
        CustomError::Conversion(m) => singleton_errors("conversion"@, m@),
        CustomError::NotFound(m) => singleton_errors("notfound"@, m@),
        CustomError::ExistAccount(m) => singleton_errors("account"@, m@),
        CustomError::Database(m) => singleton_errors("database"@, m@),
        CustomError::Elastic(m) => singleton_errors("elastic"@, m@),
        CustomError::System(m) => singleton_errors("system"@, m@),
        CustomError::Other(m) => singleton_errors("other"@, m@),
        CustomError::Json() => singleton_errors("json"@, "error json format"@),
    }
}

/// The fixed, total mapping from category to HTTP status code.
pub open spec fn spec_status_code(e: CustomError) -> u16 {
    match e {
        CustomError::Authorization(_) => 401,
        CustomError::Messages(_) => 422,
        CustomError::Validate(_) => 422,
        CustomError::Conversion(_) => 422,
        CustomError::NotFound(_) => 404,
        CustomError::ExistAccount(_) => 422,
        CustomError::Database(_) => 500,
        CustomError::Elastic(_) => 500,
        CustomError::System(_) => 422,
        CustomError::Other(_) => 422,
        CustomError::Json() => 422,
    }
}

impl CustomError {
    /// The client-safe mapping for this error; always present.
    pub fn user_errors(&self) -> (r: Option<ErrorsType>)
        ensures
            r matches Some(m) && m@ == spec_user_errors(*self),
    {
        match self {
            CustomError::Authorization(e) => Some(new_error("authorization", e.as_str())),
            CustomError::Messages(errors) => Some(errors.duplicate()),
            CustomError::Validate(errors) => Some(errors.duplicate()),
            CustomError::Conversion(e) => Some(new_error("conversion", e.as_str())),
            CustomError::NotFound(e) => Some(new_error("notfound", e.as_str())),
            CustomError::ExistAccount(e) => Some(new_error("account", e.as_str())),
            CustomError::Database(_) => Some(new_error("database", "server error")),
            CustomError::Elastic(_) => Some(new_error("elastic", "server error")),
            CustomError::System(_) => Some(new_error("system", "server error")),
            CustomError::Other(_) => Some(new_error("other", "server error")),
            CustomError::Json() => Some(new_error("json", "error json format")),
        }
    }

    /// The operator-facing mapping for this error; always present.
    pub fn system_errors(&self) -> (r: Option<ErrorsType>)
        ensures
            r matches Some(m) && m@ == spec_system_errors(*self),
    {
        match self {
            CustomError::Authorization(e) => Some(new_error("authorization", e.as_str())),
            CustomError::Messages(errors) => Some(errors.duplicate()),
            CustomError::Validate(errors) => Some(errors.duplicate()),
            CustomError::Conversion(e) => Some(new_error("conversion", e.as_str())),
            CustomError::NotFound(e) => Some(new_error("notfound", e.as_str())),
            CustomError::ExistAccount(e) => Some(new_error("account", e.as_str())),
            CustomError::Database(e) => Some(new_error("database", e.as_str())),
            CustomError::Elastic(e) => Some(new_error("elastic", e.as_str())),
            CustomError::System(e) => Some(new_error("system", e.as_str())),
            CustomError::Other(e) => Some(new_error("other", e.as_str())),
            CustomError::Json() => Some(new_error("json", "error json format")),
        }
    }

    /// The HTTP status code of this error.
    pub fn status_code(&self) -> (r: u16)
        ensures
            r == spec_status_code(*self),
    {
        match self {
            CustomError::Authorization(_) => 401,
            CustomError::Messages(_) => 422,
            CustomError::Validate(_) => 422,
            CustomError::Conversion(_) => 422,
            CustomError::NotFound(_) => 404,
            CustomError::ExistAccount(_) => 422,
            CustomError::Database(_) => 500,
            CustomError::Elastic(_) => 500,
            CustomError::System(_) => 422,
            CustomError::Other(_) => 422,
            CustomError::Json() => 422,
        }
    }
}

/// One line per message: `key: message` followed by a newline, over a whole
/// message list of one category.
pub open spec fn spec_render_messages(key: Seq<char>, msgs: Seq<Seq<char>>) -> Seq<char>
    decreases msgs.len(),
{
    if msgs.len() == 0 {
        Seq::<char>::empty()
    } else {
        key + ": "@ + msgs[0] + "\n"@ + spec_render_messages(key, msgs.skip(1))
    }
}

/// The rendering of a whole mapping, category by category.
pub open spec fn spec_render_errors(entries: Seq<(Seq<char>, Seq<Seq<char>>)>) -> Seq<char>
    decreases entries.len(),
{
    if entries.len() == 0 {
        Seq::<char>::empty()
    } else {
        spec_render_messages(entries[0].0, entries[0].1) + spec_render_errors(entries.skip(1))
    }
}

fn render_messages_from(key: &String, msgs: &Vec<String>, j: usize) -> (r: String)
    requires
        j <= msgs.len(),
    ensures
        r@ == spec_render_messages(key@, msgs_view(msgs@).skip(j as int)),
    decreases msgs.len() - j,
{
    if j == msgs.len() {
        proof {
            assert(msgs_view(msgs@).skip(j as int) =~= Seq::<Seq<char>>::empty());
        }
        String::new()
    } else {
        let mut line = key.clone();
        line.append(": ");
        line.append(msgs[j].as_str());
        line.append("\n");
        let rest = render_messages_from(key, msgs, j + 1);
        let r = line.concat(rest.as_str());
        proof {
            assert(msgs_view(msgs@).skip(j as int).skip(1) =~= msgs_view(msgs@).skip(
                j as int + 1,
            ));
            assert(msgs_view(msgs@).skip(j as int)[0] == msgs@[j as int]@);
            assert(r@ =~= spec_render_messages(key@, msgs_view(msgs@).skip(j as int)));
        }
        r
    }
}

fn render_entries_from(entries: &Vec<(String, Vec<String>)>, i: usize) -> (r: String)
    requires
        i <= entries.len(),
    ensures
        r@ == spec_render_errors(entries_view(entries@).skip(i as int)),
    decreases entries.len() - i,
{
    if i == entries.len() {
        proof {
            assert(entries_view(entries@).skip(i as int) =~= Seq::<
                (Seq<char>, Seq<Seq<char>>),
            >::empty());
        }
        String::new()
    } else {
        let head = render_messages_from(&entries[i].0, &entries[i].1, 0);
        let rest = render_entries_from(entries, i + 1);
        let r = head.concat(rest.as_str());
        proof {
            assert(entries_view(entries@).skip(i as int).skip(1) =~= entries_view(
                entries@,
            ).skip(i as int + 1));
            assert(entries_view(entries@).skip(i as int)[0] == entries_view(entries@)[i as int]);
            assert(msgs_view(entries@[i as int].1@).skip(0) =~= msgs_view(entries@[i as int].1@));
            assert(r@ =~= spec_render_errors(entries_view(entries@).skip(i as int)));
        }
        r
    }
}

impl CustomError {
    /// The operator-facing rendering: every `key: message` pair, one per line.
    pub fn display_string(&self) -> (r: String)
        ensures
            r@ == spec_render_errors(spec_system_errors(*self)),
    {
        let errors_opt = self.system_errors();
        let errors = match errors_opt {
            Some(e) => e,
            None => {
                proof {
                    assert(false);
                }
                ErrorsType { entries: Vec::new() }
            },
        };
        let r = render_entries_from(&errors.entries, 0);
        proof {
            assert(entries_view(errors.entries@).skip(0) =~= entries_view(errors.entries@));
        }
        r
    }
}

/// True of a mapping that names at least one category and carries at least one
/// message under every category.
pub open spec fn errors_nonempty(s: Seq<(Seq<char>, Seq<Seq<char>>)>) -> bool {
    s.len() >= 1 && forall|i: int| 0 <= i < s.len() ==> (#[trigger] s[i]).1.len() >= 1
}

/// True of an error whose caller-authored payload, if any, is well formed.
pub open spec fn payload_wf(e: CustomError) -> bool {
    match e {
        CustomError::Messages(m) => errors_nonempty(m@),
        CustomError::Validate(m) => errors_nonempty(m@),
        _ => true,
    }
}

/// Law: for every variant with a well-formed payload, both projections yield a
/// non-empty mapping in which every category carries at least one message.
pub proof fn lemma_projections_nonempty(e: CustomError)
    requires
        payload_wf(e),
    ensures
        errors_nonempty(spec_user_errors(e)),
        errors_nonempty(spec_system_errors(e)),
{
}

/// Law: for every variant whose payload, if any, names exactly one category,
/// both projections yield a mapping with exactly one category and at least one
/// message under it.
pub proof fn lemma_projections_single_category(e: CustomError)
    requires
        payload_wf(e),
        match e {
            CustomError::Messages(m) => m@.len() == 1,
            CustomError::Validate(m) => m@.len() == 1,
            _ => true,
        },
    ensures
        spec_user_errors(e).len() == 1,
        spec_user_errors(e)[0].1.len() >= 1,
        spec_system_errors(e).len() == 1,
        spec_system_errors(e)[0].1.len() >= 1,
{
}

/// Law: the `Messages` and `Validate` payloads are surfaced unchanged by both
/// projections.
pub proof fn lemma_payload_passthrough(m: ErrorsType)
    ensures
        spec_user_errors(CustomError::Messages(m)) == m@,
        spec_user_errors(CustomError::Validate(m)) == m@,
        spec_system_errors(CustomError::Messages(m)) == m@,
        spec_system_errors(CustomError::Validate(m)) == m@,
{
}

/// Law: the infrastructure categories are redacted to the fixed generic
/// message in the client-safe projection, while the operator-facing projection
/// preserves the original message, whatever it is.
pub proof fn lemma_redaction(m: String)
    ensures
        spec_user_errors(CustomError::Database(m)) == singleton_errors(
            "database"@,
            "server error"@,
        ),
        spec_user_errors(CustomError::Elastic(m)) == singleton_errors(
            "elastic"@,
            "server error"@,
        ),
        spec_user_errors(CustomError::System(m)) == singleton_errors("system"@, "server error"@),
        spec_user_errors(CustomError::Other(m)) == singleton_errors("other"@, "server error"@),
        spec_system_errors(CustomError::Database(m)) == singleton_errors("database"@, m@),
        spec_system_errors(CustomError::Elastic(m)) == singleton_errors("elastic"@, m@),
        spec_system_errors(CustomError::System(m)) == singleton_errors("system"@, m@),
        spec_system_errors(CustomError::Other(m)) == singleton_errors("other"@, m@),
{
}

} // verus!
