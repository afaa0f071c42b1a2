//! JSON values as the wallet reads and writes them.
//!
//! Text is parsed and printed by `serde_json`; what comes back is held in
//! [`Json`], a tree of plain values that the rest of the library walks.

use vstd::prelude::*;
use vstd::string::StringExecFns;

verus! {

/// A JSON value.
///
/// An object keeps its members in a list; a lookup takes the first member
/// with the key asked for.
#[derive(Debug, Default, PartialEq, Eq)]
pub enum Json {
    #[default]
    Null,
    Bool(bool),
    /// A number that fits in an `i64`.
    Int(i64),
    /// Any other number, as its decimal text.
    Num(String),
    Str(String),
    Arr(Vec<Json>),
    Obj(Vec<(String, Json)>),
}

/// The mathematical value of a [`Json`].
pub ghost enum JsonView {
    Null,
    Bool(bool),
    Int(i64),
    Num(Seq<char>),
    Str(Seq<char>),
    Arr(Seq<JsonView>),
    Obj(Seq<(Seq<char>, JsonView)>),
}

/// The value of `j`, by recursion over the tree.
pub open spec fn json_view(j: Json) -> JsonView
    decreases j,
{
    match j {
        Json::Null => JsonView::Null,
        Json::Bool(b) => JsonView::Bool(b),
        Json::Int(i) => JsonView::Int(i),
        Json::Num(t) => JsonView::Num(t@),
        Json::Str(s) => JsonView::Str(s@),
        Json::Arr(items) => JsonView::Arr(
            Seq::new(
                items@.len(),
                |i: int|
                    if 0 <= i < items@.len() {
                        json_view(items@[i])
                    } else {
                        JsonView::Null
                    },
            ),
        ),
        Json::Obj(members) => JsonView::Obj(
            Seq::new(
                members@.len(),
                |i: int|
                    if 0 <= i < members@.len() {
                        (members@[i].0@, json_view(members@[i].1))
                    } else {
                        (Seq::empty(), JsonView::Null)
                    },
            ),
        ),
    }
}

impl View for Json {
    type V = JsonView;

    open spec fn view(&self) -> JsonView {
        json_view(*self)
    }
}

/// The values of a list of members, member by member.
pub open spec fn members_view(members: Seq<(String, Json)>) -> Seq<(Seq<char>, JsonView)> {
    Seq::new(members.len(), |i: int| (members[i].0@, members[i].1@))
}

/// The values of a list of items, item by item.
pub open spec fn items_view(items: Seq<Json>) -> Seq<JsonView> {
    Seq::new(items.len(), |i: int| items[i]@)
}

/// An object's value is the list of its members' values.
pub proof fn lemma_obj_view(members: Vec<(String, Json)>)
    ensures
        Json::Obj(members)@ == JsonView::Obj(members_view(members@)),
{
    assert(Json::Obj(members)@->Obj_0 =~= members_view(members@));
}

/// An array's value is the list of its items' values.
pub proof fn lemma_arr_view(items: Vec<Json>)
    ensures
        Json::Arr(items)@ == JsonView::Arr(items_view(items@)),
{
    let a = Json::Arr(items)@;
    let l = a->Arr_0;
    assert(l.len() == items@.len());
    assert forall|i: int| 0 <= i < l.len() implies l[i] == items_view(items@)[i] by {
        assert(l[i] == items@[i]@);
    }
    assert(Json::Arr(items)@->Arr_0 =~= items_view(items@));
}

/// The value of a member that was looked up.
pub open spec fn member_view(member: Option<&Json>) -> Option<JsonView> {
    match member {
        Some(json) => Some(json@),
        None => None,
    }
}

/// The texts of a list of strings, string by string.
pub open spec fn strings_view(strings: Seq<String>) -> Seq<Seq<char>> {
    Seq::new(strings.len(), |i: int| strings[i]@)
}

/// The text of an optional string.
pub open spec fn optional_string_view(string: Option<String>) -> Option<Seq<char>> {
    match string {
        Some(s) => Some(s@),
        None => None,
    }
}

// Members of objects.

impl JsonView {
    /// The member of an object with the given key: the first one, where the
    /// key occurs more than once. `None` for a value that is no object.
    pub open spec fn field(self, key: Seq<char>) -> Option<JsonView> {
        match self {
            JsonView::Obj(members) => first_with_key(members, key),
            _ => None,
        }
    }
}

/// The value of the first member of `members` whose key is `key`.
pub open spec fn first_with_key(members: Seq<(Seq<char>, JsonView)>, key: Seq<char>) -> Option<
    JsonView,
>
    decreases members.len(),
{
    if members.len() == 0 {
        None
    } else if members[0].0 == key {
        Some(members[0].1)
    } else {
        first_with_key(members.skip(1), key)
    }
}

/// A lookup finds the member at `at` where no member before it has the key.
pub proof fn lemma_field_at(members: Seq<(Seq<char>, JsonView)>, key: Seq<char>, at: int)
    requires
        0 <= at < members.len(),
        members[at].0 == key,
        forall|k: int| 0 <= k < at ==> (#[trigger] members[k]).0 != key,
    ensures
        first_with_key(members, key) == Some(members[at].1),
        JsonView::Obj(members).field(key) == Some(members[at].1),
    decreases at,
{
    if at > 0 {
        let rest = members.skip(1);
        assert(rest[at - 1] == members[at]);
        assert forall|k: int| 0 <= k < at - 1 implies (#[trigger] rest[k]).0 != key by {
            assert(rest[k] == members[k + 1]);
        }
        lemma_field_at(rest, key, at - 1);
        assert(members[0].0 != key);
    }
}

impl Json {
    /// Looks up a member of an object by its key.
    pub fn get(&self, key: &str) -> (found: Option<&Json>)
        ensures
            found.is_some() == self@.field(key@).is_some(),
            found matches Some(j) ==> self@.field(key@) == Some(j@),
    {
        match self {
            Json::Obj(members) => {
                let wanted = String::from_str(key);
                let ghost all = members_view(members@);
                proof {
                    lemma_obj_view(*members);
                    assert(all.skip(0) =~= all);
                }
                let mut i: usize = 0;
                while i < members.len()
                    invariant
                        i <= members.len(),
                        wanted@ == key@,
                        all == members_view(members@),
                        self@ == JsonView::Obj(all),
                        first_with_key(all, key@) == first_with_key(all.skip(i as int), key@),
                    decreases members.len() - i,
                {
                    assert(all.skip(i as int)[0] == all[i as int]);
                    if members[i].0 == wanted {
                        return Some(&members[i].1);
                    }
                    assert(all.skip(i as int).skip(1) =~= all.skip(i as int + 1));
                    i += 1;
                }
                None
            },
            _ => None,
        }
    }
}

// Members read by their type, and values written from theirs.

/// A member that holds a string, if it is there and neither null nor of
/// another type.
pub open spec fn optional_text(member: Option<JsonView>) -> Result<Option<Seq<char>>, ()> {
    match member {
        None => Ok(None),
        Some(JsonView::Null) => Ok(None),
        Some(JsonView::Str(s)) => Ok(Some(s)),
        Some(_) => Err(()),
    }
}

/// A member that holds an integer, if it is there and neither null nor of
/// another type.
pub open spec fn optional_int(member: Option<JsonView>) -> Result<Option<i64>, ()> {
    match member {
        None => Ok(None),
        Some(JsonView::Null) => Ok(None),
        Some(JsonView::Int(i)) => Ok(Some(i)),
        Some(_) => Err(()),
    }
}

/// A member that holds an integer of 32 bits, if it is there and neither
/// null, of another type nor out of range.
pub open spec fn optional_small_int(member: Option<JsonView>) -> Result<Option<i32>, ()> {
    match member {
        None => Ok(None),
        Some(JsonView::Null) => Ok(None),
        Some(JsonView::Int(i)) => if i32::MIN <= i <= i32::MAX {
            Ok(Some(i as i32))
        } else {
            Err(())
        },
        Some(_) => Err(()),
    }
}

/// The texts of the first `n` items, if each of them is a string.
pub open spec fn texts_of(items: Seq<JsonView>, n: int) -> Option<Seq<Seq<char>>>
    decreases n,
{
    if n <= 0 {
        Some(Seq::empty())
    } else {
        match (texts_of(items, n - 1), items[n - 1]) {
            (Some(front), JsonView::Str(s)) => Some(front.push(s)),
            _ => None,
        }
    }
}

/// Once an item is no string, no longer front of the list has texts.
pub proof fn lemma_texts_of_none(items: Seq<JsonView>, n: int, m: int)
    requires
        0 < n <= m,
        texts_of(items, n) is None,
    ensures
        texts_of(items, m) is None,
    decreases m - n,
{
    if n < m {
        lemma_texts_of_none(items, n + 1, m);
    }
}

impl JsonView {
    /// The text of the member `key`, where that member is a string.
    pub open spec fn text_field(self, key: Seq<char>) -> Option<Seq<char>> {
        match self.field(key) {
            Some(JsonView::Str(s)) => Some(s),
            _ => None,
        }
    }

    /// The text of the member `key`, which may be missing or null:
    /// `Err` where it is there and no string.
    pub open spec fn optional_text_field(self, key: Seq<char>) -> Result<Option<Seq<char>>, ()> {
        optional_text(self.field(key))
    }

    /// The texts of an array of strings.
    pub open spec fn texts(self) -> Option<Seq<Seq<char>>> {
        match self {
            JsonView::Arr(items) => texts_of(items, items.len() as int),
            _ => None,
        }
    }

    /// A string value with the given text, or null for none.
    pub open spec fn of_optional_text(text: Option<Seq<char>>) -> JsonView {
        match text {
            Some(s) => JsonView::Str(s),
            None => JsonView::Null,
        }
    }

    /// An array of strings with the given texts.
    pub open spec fn of_texts(texts: Seq<Seq<char>>) -> JsonView {
        JsonView::Arr(Seq::new(texts.len(), |i: int| JsonView::Str(texts[i])))
    }
}

impl JsonView {
    /// The member `key`, or null where there is none.
    pub open spec fn field_or_null(self, key: Seq<char>) -> JsonView {
        match self.field(key) {
            Some(json) => json,
            None => JsonView::Null,
        }
    }

    /// The number of the member `key`, where that member is an integer.
    pub open spec fn int_field(self, key: Seq<char>) -> Option<i64> {
        match self.field(key) {
            Some(JsonView::Int(i)) => Some(i),
            _ => None,
        }
    }

    /// The number of the member `key`, which may be missing or null.
    pub open spec fn optional_int_field(self, key: Seq<char>) -> Result<Option<i64>, ()> {
        optional_int(self.field(key))
    }

    /// The number of the member `key`, which may be missing or null and
    /// fits in 32 bits.
    pub open spec fn optional_small_int_field(self, key: Seq<char>) -> Result<Option<i32>, ()> {
        optional_small_int(self.field(key))
    }

    /// An integer value, or null for none.
    pub open spec fn of_optional_int(number: Option<i64>) -> JsonView {
        match number {
            Some(i) => JsonView::Int(i),
            None => JsonView::Null,
        }
    }

    /// An integer value, or null for none.
    pub open spec fn of_optional_small_int(number: Option<i32>) -> JsonView {
        match number {
            Some(i) => JsonView::Int(i as i64),
            None => JsonView::Null,
        }
    }
}

impl JsonView {
    /// The texts of the member `key`, where that member is an array of
    /// strings.
    pub open spec fn texts_field(self, key: Seq<char>) -> Option<Seq<Seq<char>>> {
        match self.field(key) {
            Some(list) => list.texts(),
            None => None,
        }
    }
}

/// The value of an outcome that is an optional string.
pub open spec fn optional_text_view(read: Result<Option<String>, ()>) -> Result<
    Option<Seq<char>>,
    (),
> {
    match read {
        Ok(string) => Ok(optional_string_view(string)),
        Err(()) => Err(()),
    }
}

/// The texts of an optional list of strings.
pub open spec fn optional_strings_view(strings: Option<Vec<String>>) -> Option<Seq<Seq<char>>> {
    match strings {
        Some(list) => Some(strings_view(list@)),
        None => None,
    }
}

impl Json {
    /// The text of the member `key`, where that member is a string.
    pub fn text_field(&self, key: &str) -> (text: Option<String>)
        ensures
            optional_string_view(text) == self@.text_field(key@),
    {
        match self.get(key) {
            Some(Json::Str(s)) => Some(s.clone()),
            _ => None,
        }
    }

    /// The text of the member `key`, which may be missing or null.
    pub fn optional_text_field(&self, key: &str) -> (text: Result<Option<String>, ()>)
        ensures
            optional_text_view(text) == self@.optional_text_field(key@),
    {
        match self.get(key) {
            None => Ok(None),
            Some(Json::Null) => Ok(None),
            Some(Json::Str(s)) => Ok(Some(s.clone())),
            Some(_) => Err(()),
        }
    }

    /// The texts of an array of strings.
    pub fn texts(&self) -> (texts: Option<Vec<String>>)
        ensures
            optional_strings_view(texts) == self@.texts(),
    {
        match self {
            Json::Arr(items) => {
                let ghost all = items_view(items@);
                proof {
                    lemma_arr_view(*items);
                }
                let mut texts: Vec<String> = Vec::new();
                let mut i: usize = 0;
                while i < items.len()
                    invariant
                        i <= items.len(),
                        all == items_view(items@),
                        self@ == JsonView::Arr(all),
                        texts_of(all, i as int) == Some(strings_view(texts@)),
                    decreases items.len() - i,
                {
                    match &items[i] {
                        Json::Str(s) => {
                            let ghost before = strings_view(texts@);
                            texts.push(s.clone());
                            assert(strings_view(texts@) =~= before.push(s@));
                        },
                        _ => {
                            proof {
                                assert(all[i as int] == items@[i as int]@);
                                assert(texts_of(all, i as int + 1) is None);
                                lemma_texts_of_none(all, i as int + 1, items.len() as int);
                            }
                            return None;
                        },
                    }
                    i += 1;
                }
                Some(texts)
            },
            _ => None,
        }
    }

    /// A string value with the given text, or null for none.
    pub fn of_optional_text(text: &Option<String>) -> (json: Json)
        ensures
            json@ == JsonView::of_optional_text(optional_string_view(*text)),
    {
        match text {
            Some(s) => Json::Str(s.clone()),
            None => Json::Null,
        }
    }

    /// An array of strings with the given texts.
    pub fn of_texts(texts: &Vec<String>) -> (json: Json)
        ensures
            json@ == JsonView::of_texts(strings_view(texts@)),
    {
        let mut items: Vec<Json> = Vec::new();
        let mut i: usize = 0;
        while i < texts.len()
            invariant
                i <= texts.len(),
                items@.len() == i,
                forall|k: int| 0 <= k < i ==> (#[trigger] items@[k])@ == JsonView::Str(texts@[k]@),
            decreases texts.len() - i,
        {
            items.push(Json::Str(texts[i].clone()));
            i += 1;
        }
        proof {
            lemma_arr_view(items);
            assert(items_view(items@) =~= JsonView::of_texts(strings_view(texts@))->Arr_0);
        }
        Json::Arr(items)
    }
}

impl Json {
    /// A copy of the member `key`, or null where there is none.
    pub fn field_or_null(&self, key: &str) -> (json: Json)
        ensures
            json@ == self@.field_or_null(key@),
    {
        match self.get(key) {
            Some(json) => json.duplicate(),
            None => Json::Null,
        }
    }

    /// The number of the member `key`, where that member is an integer.
    pub fn int_field(&self, key: &str) -> (number: Option<i64>)
        ensures
            number == self@.int_field(key@),
    {
        match self.get(key) {
            Some(Json::Int(i)) => Some(*i),
            _ => None,
        }
    }

    /// The number of the member `key`, which may be missing or null.
    pub fn optional_int_field(&self, key: &str) -> (number: Result<Option<i64>, ()>)
        ensures
            number == self@.optional_int_field(key@),
    {
        match self.get(key) {
            None => Ok(None),
            Some(Json::Null) => Ok(None),
            Some(Json::Int(i)) => Ok(Some(*i)),
            Some(_) => Err(()),
        }
    }

    /// The number of the member `key`, which may be missing or null and
    /// fits in 32 bits.
    pub fn optional_small_int_field(&self, key: &str) -> (number: Result<Option<i32>, ()>)
        ensures
            number == self@.optional_small_int_field(key@),
    {
        match self.get(key) {
            None => Ok(None),
            Some(Json::Null) => Ok(None),
            Some(Json::Int(i)) => {
                if -2147483648 <= *i && *i <= 2147483647 {
                    Ok(Some(*i as i32))
                } else {
                    Err(())
                }
            },
            Some(_) => Err(()),
        }
    }

    /// An integer value, or null for none.
    pub fn of_optional_int(number: Option<i64>) -> (json: Json)
        ensures
            json@ == JsonView::of_optional_int(number),
    {
        match number {
            Some(i) => Json::Int(i),
            None => Json::Null,
        }
    }

    /// An integer value, or null for none.
    pub fn of_optional_small_int(number: Option<i32>) -> (json: Json)
        ensures
            json@ == JsonView::of_optional_small_int(number),
    {
        match number {
            Some(i) => Json::Int(i as i64),
            None => Json::Null,
        }
    }
}

impl Json {
    /// The texts of the member `key`, where that member is an array of
    /// strings.
    pub fn texts_field(&self, key: &str) -> (texts: Option<Vec<String>>)
        ensures
            optional_strings_view(texts) == self@.texts_field(key@),
    {
        match self.get(key) {
            Some(list) => list.texts(),
            None => None,
        }
    }
}

// Lists.

/// What the first `n` items stand for under `read`, if each of them
/// stands for something.
pub open spec fn list_from_json<T>(
    items: Seq<JsonView>,
    n: int,
    read: spec_fn(JsonView) -> Option<T>,
) -> Option<Seq<T>>
    decreases n,
{
    if n <= 0 {
        Some(Seq::empty())
    } else {
        match (list_from_json(items, n - 1, read), read(items[n - 1])) {
            (Some(front), Some(value)) => Some(front.push(value)),
            _ => None,
        }
    }
}

/// The JSON forms of a list of values under `write`.
pub open spec fn list_to_json<T>(values: Seq<T>, write: spec_fn(T) -> JsonView) -> Seq<JsonView> {
    Seq::new(values.len(), |i: int| write(values[i]))
}

/// Where `read` undoes `write`, reading a written list gives the list back.
pub proof fn lemma_list_round_trip<T>(
    values: Seq<T>,
    n: int,
    write: spec_fn(T) -> JsonView,
    read: spec_fn(JsonView) -> Option<T>,
)
    requires
        0 <= n <= values.len(),
        forall|k: int| 0 <= k < values.len() ==> read(write(#[trigger] values[k])) == Some(values[k]),
    ensures
        list_from_json(list_to_json(values, write), n, read) == Some(values.take(n)),
    decreases n,
{
    if n > 0 {
        lemma_list_round_trip(values, n - 1, write, read);
        assert(values.take(n - 1).push(values[n - 1]) =~= values.take(n));
    } else {
        assert(values.take(0) =~= Seq::<T>::empty());
    }
}

/// Once an item stands for nothing, no longer front of the list is read.
pub proof fn lemma_list_none<T>(
    items: Seq<JsonView>,
    n: int,
    m: int,
    read: spec_fn(JsonView) -> Option<T>,
)
    requires
        0 < n <= m,
        list_from_json(items, n, read) is None,
    ensures
        list_from_json(items, m, read) is None,
    decreases m - n,
{
    if n < m {
        lemma_list_none(items, n + 1, m, read);
    }
}

/// Reading the texts of an array of texts gives the texts back.
pub proof fn lemma_texts_of_texts(texts: Seq<Seq<char>>, n: int)
    requires
        0 <= n <= texts.len(),
    ensures
        texts_of(JsonView::of_texts(texts)->Arr_0, n) == Some(texts.take(n)),
    decreases n,
{
    if n > 0 {
        lemma_texts_of_texts(texts, n - 1);
        assert(texts.take(n - 1).push(texts[n - 1]) =~= texts.take(n));
    } else {
        assert(texts.take(0) =~= Seq::<Seq<char>>::empty());
    }
}

// Copies.

impl Clone for Json {
    fn clone(&self) -> (copy: Json)
        ensures
            copy@ == self@,
    {
        self.duplicate()
    }
}

impl Json {
    /// A copy of this value.
    pub fn duplicate(&self) -> (copy: Json)
        ensures
            copy@ == self@,
        decreases self,
    {
        match self {
            Json::Null => Json::Null,
            Json::Bool(b) => Json::Bool(*b),
            Json::Int(i) => Json::Int(*i),
            Json::Num(t) => Json::Num(t.clone()),
            Json::Str(s) => Json::Str(s.clone()),
            Json::Arr(items) => {
                let mut copies: Vec<Json> = Vec::new();
                let mut i: usize = 0;
                while i < items.len()
                    invariant
                        i <= items.len(),
                        copies@.len() == i,
                        *self == Json::Arr(*items),
                        decreases_to!(*self => *items),
                        forall|k: int| 0 <= k < i ==> (#[trigger] copies@[k])@ == items@[k]@,
                    decreases items.len() - i,
                {
                    assert(decreases_to!(*items => items[i as int]));
                    copies.push(items[i].duplicate());
                    i += 1;
                }
                proof {
                    lemma_arr_view(*items);
                    lemma_arr_view(copies);
                    assert(items_view(copies@) =~= items_view(items@));
                }
                Json::Arr(copies)
            },
            Json::Obj(members) => {
                let mut copies: Vec<(String, Json)> = Vec::new();
                let mut i: usize = 0;
                while i < members.len()
                    invariant
                        i <= members.len(),
                        copies@.len() == i,
                        *self == Json::Obj(*members),
                        decreases_to!(*self => *members),
                        forall|k: int|
                            0 <= k < i ==> (#[trigger] copies@[k]).0@ == members@[k].0@
                                && copies@[k].1@ == members@[k].1@,
                    decreases members.len() - i,
                {
                    assert(decreases_to!(*members => members[i as int]));
                    copies.push((members[i].0.clone(), members[i].1.duplicate()));
                    i += 1;
                }
                proof {
                    lemma_obj_view(*members);
                    lemma_obj_view(copies);
                    assert(members_view(copies@) =~= members_view(members@));
                }
                Json::Obj(copies)
            },
        }
    }

    /// A member of an object: a key with its value.
    pub fn member(key: &str, value: Json) -> (member: (String, Json))
        ensures
            member.0@ == key@,
            member.1 == value,
    {
        (String::from_str(key), value)
    }
}

/// A copy of a list of strings.
pub fn duplicate_strings(strings: &Vec<String>) -> (copies: Vec<String>)
    ensures
        strings_view(copies@) == strings_view(strings@),
{
    let mut copies: Vec<String> = Vec::new();
    let mut i: usize = 0;
    while i < strings.len()
        invariant
            i <= strings.len(),
            copies@.len() == i,
            forall|k: int| 0 <= k < i ==> (#[trigger] copies@[k])@ == strings@[k]@,
        decreases strings.len() - i,
    {
        copies.push(strings[i].clone());
        i += 1;
    }
    assert(strings_view(copies@) =~= strings_view(strings@));
    copies
}

// JSON text, read and written by `serde_json`.

#[verifier::external_type_specification]
#[verifier::external_body]
pub struct ExValue(serde_json::Value);

#[verifier::external_type_specification]
#[verifier::external_body]
pub struct ExError(serde_json::Error);

/// What `serde_json` reads from the bytes of a JSON text: the value, or,
/// where it reports an error, the message of the error.
pub uninterp spec fn json_read(bytes: Seq<u8>) -> Result<JsonView, Seq<char>>;

/// The message of a `serde_json::Error`, as its `Display` writes it.
pub uninterp spec fn error_message(error: serde_json::Error) -> Seq<char>;

/// Whether `serde_json` reads the text as a number.
pub uninterp spec fn number_read(text: Seq<char>) -> bool;

/// The value that `serde_json` reads from the bytes of a JSON text: `None`
/// where it reports an error.
pub open spec fn json_parsed(bytes: Seq<u8>) -> Option<JsonView> {
    match json_read(bytes) {
        Ok(json) => Some(json),
        Err(_) => None,
    }
}

/// What reading gave where it gave a value.
pub open spec fn read_as(value: serde_json::Value) -> Result<JsonView, Seq<char>> {
    Ok(value_read(value))
}

/// What reading gave where it gave an error.
pub open spec fn refused_with(error: serde_json::Error) -> Result<JsonView, Seq<char>> {
    Err(error_message(error))
}

/// The value that a `serde_json::Value` stands for, its object members in
/// the order in which the map hands them out.
pub uninterp spec fn value_read(value: serde_json::Value) -> JsonView;

/// The `serde_json::Value` that is built from a JSON value.
pub uninterp spec fn value_built(json: JsonView) -> serde_json::Value;

/// The bytes that `serde_json` prints for a `serde_json::Value`.
pub uninterp spec fn value_printed(value: serde_json::Value) -> Seq<u8>;

/// Calls `serde_json::from_slice` for a `serde_json::Value`. What comes
/// back is by definition [`json_read`] of the bytes: the value, read by
/// [`value_read`], or the error, with the message that
/// [`error_message`] names.
#[verifier::external_body]
fn parse_value(bytes: &[u8]) -> (parsed: Result<serde_json::Value, serde_json::Error>)
    ensures
        parsed matches Ok(value) ==> json_read(bytes@) == read_as(value),
        parsed matches Err(error) ==> json_read(bytes@) == refused_with(error),
{
    serde_json::from_slice::<serde_json::Value>(bytes)
}

/// Copies a `serde_json::Value` into a [`Json`], variant by variant. A
/// number goes to `Int` where `as_i64` gives one, and to `Num` with the
/// text of its `Display` otherwise.
#[verifier::external_body]
fn json_of_value(value: &serde_json::Value) -> (json: Json)
    ensures
        json@ == value_read(*value),
{
    match value {
        serde_json::Value::Null => Json::Null,
        serde_json::Value::Bool(b) => Json::Bool(*b),
        serde_json::Value::Number(n) => match n.as_i64() {
            Some(i) => Json::Int(i),
            None => Json::Num(n.to_string()),
        },
        serde_json::Value::String(s) => Json::Str(s.clone()),
        serde_json::Value::Array(a) => Json::Arr(a.iter().map(json_of_value).collect()),
        serde_json::Value::Object(o) => Json::Obj(
            o.iter().map(|(k, v)| (k.clone(), json_of_value(v))).collect(),
        ),
    }
}

/// Copies a [`Json`] into a `serde_json::Value`, variant by variant. The
/// members of an object are inserted in their order; the text of a `Num`
/// is read by `serde_json`'s `FromStr` for numbers, which by definition
/// says whether [`number_read`] holds of it, and is null where that fails.
#[verifier::external_body]
fn value_of_json(json: &Json) -> (value: serde_json::Value)
    ensures
        value == value_built(json@),
        json@ matches JsonView::Num(text) ==> !number_read(text) ==> value == value_built(JsonView::Null),
{
    match json {
        Json::Null => serde_json::Value::Null,
        Json::Bool(b) => serde_json::Value::Bool(*b),
        Json::Int(i) => serde_json::Value::Number((*i).into()),
        Json::Num(t) => t.parse().map_or(serde_json::Value::Null, serde_json::Value::Number),
        Json::Str(s) => serde_json::Value::String(s.clone()),
        Json::Arr(a) => serde_json::Value::Array(a.iter().map(value_of_json).collect()),
        Json::Obj(o) => serde_json::Value::Object(
            o.iter().map(|(k, v)| (k.clone(), value_of_json(v))).collect(),
        ),
    }
}

/// Calls `serde_json::to_vec` on a `serde_json::Value`. It succeeds: a
/// `Value` holds only what JSON can say, its keys are strings, and writing
/// into a vector does not fail. The bytes are by definition
/// [`value_printed`] of the value.
#[verifier::external_body]
fn print_value(value: &serde_json::Value) -> (printed: Result<Vec<u8>, serde_json::Error>)
    ensures
        printed is Ok,
        printed matches Ok(bytes) ==> bytes@ == value_printed(*value),
{
    serde_json::to_vec(value)
}

/// Calls `to_string` on a `serde_json::Error`: the message as its
/// `Display` writes it, which is by definition [`error_message`] of the
/// error.
#[verifier::external_body]
fn error_text(error: &serde_json::Error) -> (text: String)
    ensures
        text@ == error_message(*error),
{
    error.to_string()
}

/// The value of what was read from a JSON text, or of the message in its
/// place.
pub open spec fn read_view(read: Result<Json, String>) -> Result<JsonView, Seq<char>> {
    match read {
        Ok(json) => Ok(json@),
        Err(message) => Err(message@),
    }
}

/// The value of printed bytes or of the message in their place.
pub open spec fn printed_view(printed: Result<Vec<u8>, String>) -> Result<Seq<u8>, Seq<char>> {
    match printed {
        Ok(bytes) => Ok(bytes@),
        Err(message) => Err(message@),
    }
}

impl JsonView {
    /// The bytes of this value as JSON text.
    pub open spec fn printed(self) -> Seq<u8> {
        value_printed(value_built(self))
    }
}

impl Json {
    /// Reads a JSON text. An error carries the parser's message.
    pub fn parse(bytes: &[u8]) -> (parsed: Result<Json, String>)
        ensures
            read_view(parsed) == json_read(bytes@),
            parsed matches Ok(json) ==> json_parsed(bytes@) == Some(json@),
            parsed is Err <==> json_parsed(bytes@) is None,
    {
        match parse_value(bytes) {
            Ok(value) => Ok(json_of_value(&value)),
            Err(error) => Err(error_text(&error)),
        }
    }

    /// Writes this value as JSON text. Printing a value does not fail. A
    /// number whose text `serde_json` does not read as a number is written
    /// as null is.
    pub fn print(&self) -> (printed: Result<Vec<u8>, String>)
        ensures
            printed matches Ok(bytes) && bytes@ == self@.printed(),
            self@ matches JsonView::Num(text) ==> !number_read(text) ==> self@.printed()
                == JsonView::Null.printed(),
    {
        let value = value_of_json(self);
        match print_value(&value) {
            Ok(bytes) => Ok(bytes),
            Err(error) => Err(error_text(&error)),
        }
    }
}

} // verus!
