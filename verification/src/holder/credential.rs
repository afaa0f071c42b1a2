//! The credential as the holder keeps it, and its JSON form.

use crate::json::{
    duplicate_strings, items_view, json_parsed, lemma_arr_view, lemma_field_at, lemma_list_none,
    lemma_list_round_trip, lemma_obj_view, lemma_texts_of_texts, list_from_json, list_to_json,
    member_view, members_view, optional_string_view, strings_view, Json, JsonView,
};
use vstd::prelude::*;

verus! {

/// An image that was fetched for a credential: its data in base64 and its media
/// type.
#[derive(Clone, Debug, Default, PartialEq, Eq)]
pub struct ImageData {
    /// The image, base64 encoded.
    pub data: String,
    /// The media type of the image.
    pub media_type: String,
}

/// The mathematical value of an [`ImageData`].
pub ghost struct ImageDataView {
    pub data: Seq<char>,
    pub media_type: Seq<char>,
}

impl View for ImageData {
    type V = ImageDataView;

    open spec fn view(&self) -> ImageDataView {
        ImageDataView {
            data: self.data@,
            media_type: self.media_type@,
        }
    }
}

impl ImageDataView {
    /// The JSON form of a fetched image: an object with the members `data`,
    /// `media_type`.
    pub open spec fn to_json(self) -> JsonView {
        JsonView::Obj(
            seq![
                ("data"@, JsonView::Str(self.data)),
                ("media_type"@, JsonView::Str(self.media_type)),
            ],
        )
    }

    /// The fetched image that a JSON value stands for: `None` unless it is an
    /// object each of whose members reads as its field.
    pub open spec fn from_json(json: JsonView) -> Option<ImageDataView> {
        if json is Obj
            && json.text_field("data"@) is Some
            && json.text_field("media_type"@) is Some
        {
            Some(
                ImageDataView {
                    data: json.text_field("data"@)->Some_0,
                    media_type: json.text_field("media_type"@)->Some_0,
                },
            )
        } else {
            None
        }
    }

    /// The JSON form of an optional fetched image: null for none.
    pub open spec fn optional_to_json(value: Option<ImageDataView>) -> JsonView {
        match value {
            Some(v) => v.to_json(),
            None => JsonView::Null,
        }
    }

    /// The optional fetched image that a member stands for: none where the
    /// member is missing or null, `Err` where it is there and reads as no
    /// fetched image.
    pub open spec fn optional_from_json(member: Option<JsonView>) -> Result<
        Option<ImageDataView>,
        (),
    > {
        match member {
            None => Ok(None),
            Some(JsonView::Null) => Ok(None),
            Some(json) => match ImageDataView::from_json(json) {
                Some(value) => Ok(Some(value)),
                None => Err(()),
            },
        }
    }

    /// Reading the JSON form of a fetched image gives it back.
    pub proof fn lemma_round_trip(self)
        ensures
            ImageDataView::from_json(self.to_json()) == Some(self),
    {
        reveal_strlit("data");
        reveal_strlit("media_type");
        let members = self.to_json()->Obj_0;
        assert("data"@.len() == 4);
        assert("media_type"@.len() == 10);
        assert(members[0].0 == "data"@);
        assert(members[1].0 == "media_type"@);
        lemma_field_at(members, "data"@, 0);
        lemma_field_at(members, "media_type"@, 1);
    }

    /// Reading the JSON form of an optional fetched image gives it back.
    pub proof fn lemma_optional_round_trip(value: Option<ImageDataView>)
        ensures
            ImageDataView::optional_from_json(Some(ImageDataView::optional_to_json(value))) == Ok::<
                _,
                (),
            >(value),
    {
        if let Some(v) = value {
            v.lemma_round_trip();
        }
    }
}

impl ImageData {
    /// The value of an optional fetched image.
    pub open spec fn optional_view(value: Option<ImageData>) -> Option<ImageDataView> {
        match value {
            Some(v) => Some(v@),
            None => None,
        }
    }

    /// A copy of this image.
    pub fn duplicate(&self) -> (copy: ImageData)
        ensures
            copy@ == self@,
    {
        ImageData {
            data: self.data.clone(),
            media_type: self.media_type.clone(),
        }
    }

    /// The JSON form of this image.
    pub fn to_json(&self) -> (json: Json)
        ensures
            json@ == self@.to_json(),
    {
        let members = vec![
            Json::member("data", Json::Str(self.data.clone())),
            Json::member("media_type", Json::Str(self.media_type.clone())),
        ];
        proof {
            lemma_obj_view(members);
            assert(members_view(members@) =~= self@.to_json()->Obj_0);
        }
        Json::Obj(members)
    }

    /// Reads a fetched image from its JSON form.
    pub fn from_json(json: &Json) -> (value: Option<ImageData>)
        ensures
            value.is_some() == ImageDataView::from_json(json@).is_some(),
            value matches Some(v) ==> ImageDataView::from_json(json@) == Some(v@),
    {
        match json {
            Json::Obj(_) => {},
            _ => {
                return None;
            },
        }
        let data = match json.text_field("data") {
            Some(value) => value,
            None => {
                return None;
            },
        };
        let media_type = match json.text_field("media_type") {
            Some(value) => value,
            None => {
                return None;
            },
        };
        Some(ImageData { data, media_type })
    }

    /// A copy of an optional fetched image.
    pub fn optional_duplicate(value: &Option<ImageData>) -> (copy: Option<ImageData>)
        ensures
            ImageData::optional_view(copy) == ImageData::optional_view(*value),
    {
        match value {
            Some(v) => Some(v.duplicate()),
            None => None,
        }
    }

    /// The JSON form of an optional fetched image.
    pub fn optional_to_json(value: &Option<ImageData>) -> (json: Json)
        ensures
            json@ == ImageDataView::optional_to_json(ImageData::optional_view(*value)),
    {
        match value {
            Some(v) => v.to_json(),
            None => Json::Null,
        }
    }

    /// Reads an optional fetched image from the member that holds it.
    pub fn optional_from_json(member: Option<&Json>) -> (value: Result<Option<ImageData>, ()>)
        ensures
            value.is_ok() == ImageDataView::optional_from_json(member_view(member)).is_ok(),
            value matches Ok(v) ==> ImageDataView::optional_from_json(member_view(member)) == Ok::<
                _,
                (),
            >(ImageData::optional_view(v)),
    {
        match member {
            None => Ok(None),
            Some(Json::Null) => Ok(None),
            Some(json) => match ImageData::from_json(json) {
                Some(value) => Ok(Some(value)),
                None => Err(()),
            },
        }
    }
}

/// A reference to an image by its address.
#[derive(Clone, Debug, Default, PartialEq, Eq)]
pub struct Image {
    /// Where the image can be fetched.
    pub uri: Option<String>,
    /// What to show in place of the image.
    pub alt_text: Option<String>,
}

/// The mathematical value of an [`Image`].
pub ghost struct ImageView {
    pub uri: Option<Seq<char>>,
    pub alt_text: Option<Seq<char>>,
}

impl View for Image {
    type V = ImageView;

    open spec fn view(&self) -> ImageView {
        ImageView {
            uri: optional_string_view(self.uri),
            alt_text: optional_string_view(self.alt_text),
        }
    }
}

impl ImageView {
    /// The JSON form of an image reference: an object with the members `uri`,
    /// `alt_text`.
    pub open spec fn to_json(self) -> JsonView {
        JsonView::Obj(
            seq![
                ("uri"@, JsonView::of_optional_text(self.uri)),
                ("alt_text"@, JsonView::of_optional_text(self.alt_text)),
            ],
        )
    }

    /// The image reference that a JSON value stands for: `None` unless it is an
    /// object each of whose members reads as its field.
    pub open spec fn from_json(json: JsonView) -> Option<ImageView> {
        if json is Obj
            && json.optional_text_field("uri"@) is Ok
            && json.optional_text_field("alt_text"@) is Ok
        {
            Some(
                ImageView {
                    uri: json.optional_text_field("uri"@)->Ok_0,
                    alt_text: json.optional_text_field("alt_text"@)->Ok_0,
                },
            )
        } else {
            None
        }
    }

    /// The JSON form of an optional image reference: null for none.
    pub open spec fn optional_to_json(value: Option<ImageView>) -> JsonView {
        match value {
            Some(v) => v.to_json(),
            None => JsonView::Null,
        }
    }

    /// The optional image reference that a member stands for: none where the
    /// member is missing or null, `Err` where it is there and reads as no image
    /// reference.
    pub open spec fn optional_from_json(member: Option<JsonView>) -> Result<
        Option<ImageView>,
        (),
    > {
        match member {
            None => Ok(None),
            Some(JsonView::Null) => Ok(None),
            Some(json) => match ImageView::from_json(json) {
                Some(value) => Ok(Some(value)),
                None => Err(()),
            },
        }
    }

    /// Reading the JSON form of an image reference gives it back.
    pub proof fn lemma_round_trip(self)
        ensures
            ImageView::from_json(self.to_json()) == Some(self),
    {
        reveal_strlit("uri");
        reveal_strlit("alt_text");
        let members = self.to_json()->Obj_0;
        assert("uri"@.len() == 3);
        assert("alt_text"@.len() == 8);
        assert(members[0].0 == "uri"@);
        assert(members[1].0 == "alt_text"@);
        lemma_field_at(members, "uri"@, 0);
        lemma_field_at(members, "alt_text"@, 1);
    }

    /// Reading the JSON form of an optional image reference gives it back.
    pub proof fn lemma_optional_round_trip(value: Option<ImageView>)
        ensures
            ImageView::optional_from_json(Some(ImageView::optional_to_json(value))) == Ok::<
                _,
                (),
            >(value),
    {
        if let Some(v) = value {
            v.lemma_round_trip();
        }
    }
}

impl Image {
    /// The value of an optional image reference.
    pub open spec fn optional_view(value: Option<Image>) -> Option<ImageView> {
        match value {
            Some(v) => Some(v@),
            None => None,
        }
    }

    /// A copy of this reference.
    pub fn duplicate(&self) -> (copy: Image)
        ensures
            copy@ == self@,
    {
        Image {
            uri: self.uri.clone(),
            alt_text: self.alt_text.clone(),
        }
    }

    /// The JSON form of this reference.
    pub fn to_json(&self) -> (json: Json)
        ensures
            json@ == self@.to_json(),
    {
        let members = vec![
            Json::member("uri", Json::of_optional_text(&self.uri)),
            Json::member("alt_text", Json::of_optional_text(&self.alt_text)),
        ];
        proof {
            lemma_obj_view(members);
            assert(members_view(members@) =~= self@.to_json()->Obj_0);
        }
        Json::Obj(members)
    }

    /// Reads an image reference from its JSON form.
    pub fn from_json(json: &Json) -> (value: Option<Image>)
        ensures
            value.is_some() == ImageView::from_json(json@).is_some(),
            value matches Some(v) ==> ImageView::from_json(json@) == Some(v@),
    {
        match json {
            Json::Obj(_) => {},
            _ => {
                return None;
            },
        }
        let uri = match json.optional_text_field("uri") {
            Ok(value) => value,
            Err(_) => {
                return None;
            },
        };
        let alt_text = match json.optional_text_field("alt_text") {
            Ok(value) => value,
            Err(_) => {
                return None;
            },
        };
        Some(Image { uri, alt_text })
    }

    /// A copy of an optional image reference.
    pub fn optional_duplicate(value: &Option<Image>) -> (copy: Option<Image>)
        ensures
            Image::optional_view(copy) == Image::optional_view(*value),
    {
        match value {
            Some(v) => Some(v.duplicate()),
            None => None,
        }
    }

    /// The JSON form of an optional image reference.
    pub fn optional_to_json(value: &Option<Image>) -> (json: Json)
        ensures
            json@ == ImageView::optional_to_json(Image::optional_view(*value)),
    {
        match value {
            Some(v) => v.to_json(),
            None => Json::Null,
        }
    }

    /// Reads an optional image reference from the member that holds it.
    pub fn optional_from_json(member: Option<&Json>) -> (value: Result<Option<Image>, ()>)
        ensures
            value.is_ok() == ImageView::optional_from_json(member_view(member)).is_ok(),
            value matches Ok(v) ==> ImageView::optional_from_json(member_view(member)) == Ok::<
                _,
                (),
            >(Image::optional_view(v)),
    {
        match member {
            None => Ok(None),
            Some(Json::Null) => Ok(None),
            Some(json) => match Image::from_json(json) {
                Some(value) => Ok(Some(value)),
                None => Err(()),
            },
        }
    }
}

/// How an issuer wants a credential shown, for one locale.
#[derive(Clone, Debug, Default, PartialEq, Eq)]
pub struct CredentialDisplay {
    /// The name of the credential.
    pub name: String,
    /// The locale that this record is for; none for a record that fits any.
    pub locale: Option<String>,
    /// A description of the credential.
    pub description: Option<String>,
    /// The issuer's logo for the credential.
    pub logo: Option<Image>,
    /// The background colour of the credential.
    pub background_color: Option<String>,
    /// The colour of text on the credential.
    pub text_color: Option<String>,
    /// The background image of the credential.
    pub background_image: Option<Image>,
}

/// The mathematical value of a [`CredentialDisplay`].
pub ghost struct CredentialDisplayView {
    pub name: Seq<char>,
    pub locale: Option<Seq<char>>,
    pub description: Option<Seq<char>>,
    pub logo: Option<ImageView>,
    pub background_color: Option<Seq<char>>,
    pub text_color: Option<Seq<char>>,
    pub background_image: Option<ImageView>,
}

impl View for CredentialDisplay {
    type V = CredentialDisplayView;

    open spec fn view(&self) -> CredentialDisplayView {
        CredentialDisplayView {
            name: self.name@,
            locale: optional_string_view(self.locale),
            description: optional_string_view(self.description),
            logo: Image::optional_view(self.logo),
            background_color: optional_string_view(self.background_color),
            text_color: optional_string_view(self.text_color),
            background_image: Image::optional_view(self.background_image),
        }
    }
}

impl CredentialDisplayView {
    /// The JSON form of a display record: an object with the members `name`,
    /// `locale`, `description`, `logo`, `background_color`, `text_color`,
    /// `background_image`.
    pub open spec fn to_json(self) -> JsonView {
        JsonView::Obj(
            seq![
                ("name"@, JsonView::Str(self.name)),
                ("locale"@, JsonView::of_optional_text(self.locale)),
                ("description"@, JsonView::of_optional_text(self.description)),
                ("logo"@, ImageView::optional_to_json(self.logo)),
                ("background_color"@, JsonView::of_optional_text(self.background_color)),
                ("text_color"@, JsonView::of_optional_text(self.text_color)),
                ("background_image"@, ImageView::optional_to_json(self.background_image)),
            ],
        )
    }

    /// The display record that a JSON value stands for: `None` unless it is an
    /// object each of whose members reads as its field.
    pub open spec fn from_json(json: JsonView) -> Option<CredentialDisplayView> {
        if json is Obj
            && json.text_field("name"@) is Some
            && json.optional_text_field("locale"@) is Ok
            && json.optional_text_field("description"@) is Ok
            && ImageView::optional_from_json(json.field("logo"@)) is Ok
            && json.optional_text_field("background_color"@) is Ok
            && json.optional_text_field("text_color"@) is Ok
            && ImageView::optional_from_json(json.field("background_image"@)) is Ok
        {
            Some(
                CredentialDisplayView {
                    name: json.text_field("name"@)->Some_0,
                    locale: json.optional_text_field("locale"@)->Ok_0,
                    description: json.optional_text_field("description"@)->Ok_0,
                    logo: ImageView::optional_from_json(json.field("logo"@))->Ok_0,
                    background_color: json.optional_text_field("background_color"@)->Ok_0,
                    text_color: json.optional_text_field("text_color"@)->Ok_0,
                    background_image: ImageView::optional_from_json(json.field("background_image"@))->Ok_0,
                },
            )
        } else {
            None
        }
    }

    /// Writes one display record.
    pub open spec fn writer() -> spec_fn(CredentialDisplayView) -> JsonView {
        |value: CredentialDisplayView| value.to_json()
    }

    /// Reads one display record.
    pub open spec fn reader() -> spec_fn(JsonView) -> Option<CredentialDisplayView> {
        |json: JsonView| CredentialDisplayView::from_json(json)
    }

    /// The JSON form of a list: an array of the forms of its items.
    pub open spec fn list_to_json(values: Seq<CredentialDisplayView>) -> JsonView {
        JsonView::Arr(list_to_json(values, CredentialDisplayView::writer()))
    }

    /// The list that a member stands for: empty where the member is missing or
    /// null, `None` where it is no array or one of its items reads as no
    /// display record.
    pub open spec fn list_from_json(member: Option<JsonView>) -> Option<Seq<CredentialDisplayView>> {
        match member {
            None => Some(Seq::empty()),
            Some(JsonView::Null) => Some(Seq::empty()),
            Some(JsonView::Arr(items)) => list_from_json(items, items.len() as int, CredentialDisplayView::reader()),
            Some(_) => None,
        }
    }

    /// Reading the JSON form of a display record gives it back.
    pub proof fn lemma_round_trip(self)
        ensures
            CredentialDisplayView::from_json(self.to_json()) == Some(self),
    {
        reveal_strlit("name");
        reveal_strlit("locale");
        reveal_strlit("description");
        reveal_strlit("logo");
        reveal_strlit("background_color");
        reveal_strlit("text_color");
        reveal_strlit("background_image");
        let members = self.to_json()->Obj_0;
        assert("name"@.len() == 4);
        assert("locale"@.len() == 6);
        assert("description"@.len() == 11);
        assert("logo"@.len() == 4);
        assert("background_color"@.len() == 16);
        assert("text_color"@.len() == 10);
        assert("background_image"@.len() == 16);
        assert(members[0].0 == "name"@);
        assert(members[1].0 == "locale"@);
        assert(members[2].0 == "description"@);
        assert(members[3].0 == "logo"@);
        assert(members[4].0 == "background_color"@);
        assert(members[5].0 == "text_color"@);
        assert(members[6].0 == "background_image"@);
        assert("logo"@[0] != "name"@[0]);
        assert("background_image"@[11] != "background_color"@[11]);
        lemma_field_at(members, "name"@, 0);
        lemma_field_at(members, "locale"@, 1);
        lemma_field_at(members, "description"@, 2);
        lemma_field_at(members, "logo"@, 3);
        lemma_field_at(members, "background_color"@, 4);
        lemma_field_at(members, "text_color"@, 5);
        lemma_field_at(members, "background_image"@, 6);
        ImageView::lemma_optional_round_trip(self.logo);
        ImageView::lemma_optional_round_trip(self.background_image);
    }

    /// Reading the JSON form of a list gives the list back.
    pub proof fn lemma_list_round_trip(values: Seq<CredentialDisplayView>)
        ensures
            CredentialDisplayView::list_from_json(Some(CredentialDisplayView::list_to_json(values))) == Some(values),
    {
        assert forall|k: int| 0 <= k < values.len() implies (CredentialDisplayView::reader())(
            (CredentialDisplayView::writer())(#[trigger] values[k]),
        ) == Some(values[k]) by {
            values[k].lemma_round_trip();
        }
        lemma_list_round_trip(values, values.len() as int, CredentialDisplayView::writer(), CredentialDisplayView::reader());
        assert(values.take(values.len() as int) =~= values);
    }
}

impl CredentialDisplay {
    /// The values of a list, item by item.
    pub open spec fn list_view(values: Seq<CredentialDisplay>) -> Seq<CredentialDisplayView> {
        Seq::new(values.len(), |i: int| values[i]@)
    }

    /// A copy of this record.
    pub fn duplicate(&self) -> (copy: CredentialDisplay)
        ensures
            copy@ == self@,
    {
        CredentialDisplay {
            name: self.name.clone(),
            locale: self.locale.clone(),
            description: self.description.clone(),
            logo: Image::optional_duplicate(&self.logo),
            background_color: self.background_color.clone(),
            text_color: self.text_color.clone(),
            background_image: Image::optional_duplicate(&self.background_image),
        }
    }

    /// The JSON form of this record.
    pub fn to_json(&self) -> (json: Json)
        ensures
            json@ == self@.to_json(),
    {
        let members = vec![
            Json::member("name", Json::Str(self.name.clone())),
            Json::member("locale", Json::of_optional_text(&self.locale)),
            Json::member("description", Json::of_optional_text(&self.description)),
            Json::member("logo", Image::optional_to_json(&self.logo)),
            Json::member("background_color", Json::of_optional_text(&self.background_color)),
            Json::member("text_color", Json::of_optional_text(&self.text_color)),
            Json::member("background_image", Image::optional_to_json(&self.background_image)),
        ];
        proof {
            lemma_obj_view(members);
            assert(members_view(members@) =~= self@.to_json()->Obj_0);
        }
        Json::Obj(members)
    }

    /// Reads a display record from its JSON form.
    pub fn from_json(json: &Json) -> (value: Option<CredentialDisplay>)
        ensures
            value.is_some() == CredentialDisplayView::from_json(json@).is_some(),
            value matches Some(v) ==> CredentialDisplayView::from_json(json@) == Some(v@),
    {
        match json {
            Json::Obj(_) => {},
            _ => {
                return None;
            },
        }
        let name = match json.text_field("name") {
            Some(value) => value,
            None => {
                return None;
            },
        };
        let locale = match json.optional_text_field("locale") {
            Ok(value) => value,
            Err(_) => {
                return None;
            },
        };
        let description = match json.optional_text_field("description") {
            Ok(value) => value,
            Err(_) => {
                return None;
            },
        };
        let logo = match Image::optional_from_json(json.get("logo")) {
            Ok(value) => value,
            Err(_) => {
                return None;
            },
        };
        let background_color = match json.optional_text_field("background_color") {
            Ok(value) => value,
            Err(_) => {
                return None;
            },
        };
        let text_color = match json.optional_text_field("text_color") {
            Ok(value) => value,
            Err(_) => {
                return None;
            },
        };
        let background_image = match Image::optional_from_json(json.get("background_image")) {
            Ok(value) => value,
            Err(_) => {
                return None;
            },
        };
        Some(CredentialDisplay { name, locale, description, logo, background_color, text_color, background_image })
    }

    /// A copy of a list.
    pub fn list_duplicate(values: &Vec<CredentialDisplay>) -> (copies: Vec<CredentialDisplay>)
        ensures
            CredentialDisplay::list_view(copies@) == CredentialDisplay::list_view(values@),
    {
        let mut copies: Vec<CredentialDisplay> = Vec::new();
        let mut i: usize = 0;
        while i < values.len()
            invariant
                i <= values.len(),
                copies@.len() == i,
                forall|k: int| 0 <= k < i ==> (#[trigger] copies@[k])@ == values@[k]@,
            decreases values.len() - i,
        {
            copies.push(values[i].duplicate());
            i += 1;
        }
        assert(CredentialDisplay::list_view(copies@) =~= CredentialDisplay::list_view(values@));
        copies
    }

    /// The JSON form of a list.
    pub fn list_to_json(values: &Vec<CredentialDisplay>) -> (json: Json)
        ensures
            json@ == CredentialDisplayView::list_to_json(CredentialDisplay::list_view(values@)),
    {
        let mut items: Vec<Json> = Vec::new();
        let mut i: usize = 0;
        while i < values.len()
            invariant
                i <= values.len(),
                items@.len() == i,
                forall|k: int| 0 <= k < i ==> (#[trigger] items@[k])@ == values@[k]@.to_json(),
            decreases values.len() - i,
        {
            items.push(values[i].to_json());
            i += 1;
        }
        proof {
            lemma_arr_view(items);
            assert(items_view(items@) =~= list_to_json(
                CredentialDisplay::list_view(values@),
                CredentialDisplayView::writer(),
            ));
        }
        Json::Arr(items)
    }

    /// Reads a list from the member that holds it.
    pub fn list_from_json(member: Option<&Json>) -> (values: Option<Vec<CredentialDisplay>>)
        ensures
            values.is_some() == CredentialDisplayView::list_from_json(member_view(member)).is_some(),
            values matches Some(list) ==> CredentialDisplayView::list_from_json(member_view(member)) == Some(
                CredentialDisplay::list_view(list@),
            ),
    {
        match member {
            None => Some(Vec::new()),
            Some(Json::Null) => Some(Vec::new()),
            Some(Json::Arr(items)) => {
                let ghost all = items_view(items@);
                proof {
                    lemma_arr_view(*items);
                }
                let mut values: Vec<CredentialDisplay> = Vec::new();
                let mut i: usize = 0;
                assert(CredentialDisplay::list_view(values@) =~= Seq::<CredentialDisplayView>::empty());
                while i < items.len()
                    invariant
                        i <= items.len(),
                        all == items_view(items@),
                        member_view(member) == Some(JsonView::Arr(all)),
                        list_from_json(all, i as int, CredentialDisplayView::reader()) == Some(
                            CredentialDisplay::list_view(values@),
                        ),
                    decreases items.len() - i,
                {
                    match CredentialDisplay::from_json(&items[i]) {
                        Some(value) => {
                            let ghost before = CredentialDisplay::list_view(values@);
                            values.push(value);
                            assert(CredentialDisplay::list_view(values@) =~= before.push(value@));
                        },
                        None => {
                            proof {
                                assert(list_from_json(all, i as int + 1, CredentialDisplayView::reader()) is None);
                                lemma_list_none(
                                    all,
                                    i as int + 1,
                                    items.len() as int,
                                    CredentialDisplayView::reader(),
                                );
                            }
                            return None;
                        },
                    }
                    i += 1;
                }
                Some(values)
            },
            Some(_) => None,
        }
    }
}

/// The claims that a credential makes of one subject.
#[derive(Clone, Debug, Default, PartialEq, Eq)]
pub struct SubjectClaims {
    /// The subject that the claims are about.
    pub id: Option<String>,
    /// The claims: an object that holds each claim under its name, nested
    /// claims as objects.
    pub claims: Json,
}

/// The mathematical value of a [`SubjectClaims`].
pub ghost struct SubjectClaimsView {
    pub id: Option<Seq<char>>,
    pub claims: JsonView,
}

impl View for SubjectClaims {
    type V = SubjectClaimsView;

    open spec fn view(&self) -> SubjectClaimsView {
        SubjectClaimsView {
            id: optional_string_view(self.id),
            claims: self.claims@,
        }
    }
}

impl SubjectClaimsView {
    /// The JSON form of a claim set: an object with the members `id`, `claims`.
    pub open spec fn to_json(self) -> JsonView {
        JsonView::Obj(
            seq![
                ("id"@, JsonView::of_optional_text(self.id)),
                ("claims"@, self.claims),
            ],
        )
    }

    /// The claim set that a JSON value stands for: `None` unless it is an
    /// object each of whose members reads as its field.
    pub open spec fn from_json(json: JsonView) -> Option<SubjectClaimsView> {
        if json is Obj
            && json.optional_text_field("id"@) is Ok
            && json.field("claims"@) is Some
        {
            Some(
                SubjectClaimsView {
                    id: json.optional_text_field("id"@)->Ok_0,
                    claims: json.field("claims"@)->Some_0,
                },
            )
        } else {
            None
        }
    }

    /// Writes one claim set.
    pub open spec fn writer() -> spec_fn(SubjectClaimsView) -> JsonView {
        |value: SubjectClaimsView| value.to_json()
    }

    /// Reads one claim set.
    pub open spec fn reader() -> spec_fn(JsonView) -> Option<SubjectClaimsView> {
        |json: JsonView| SubjectClaimsView::from_json(json)
    }

    /// The JSON form of a list: an array of the forms of its items.
    pub open spec fn list_to_json(values: Seq<SubjectClaimsView>) -> JsonView {
        JsonView::Arr(list_to_json(values, SubjectClaimsView::writer()))
    }

    /// The list that a member stands for: empty where the member is missing or
    /// null, `None` where it is no array or one of its items reads as no claim
    /// set.
    pub open spec fn list_from_json(member: Option<JsonView>) -> Option<Seq<SubjectClaimsView>> {
        match member {
            None => Some(Seq::empty()),
            Some(JsonView::Null) => Some(Seq::empty()),
            Some(JsonView::Arr(items)) => list_from_json(items, items.len() as int, SubjectClaimsView::reader()),
            Some(_) => None,
        }
    }

    /// Reading the JSON form of a claim set gives it back.
    pub proof fn lemma_round_trip(self)
        ensures
            SubjectClaimsView::from_json(self.to_json()) == Some(self),
    {
        reveal_strlit("id");
        reveal_strlit("claims");
        let members = self.to_json()->Obj_0;
        assert("id"@.len() == 2);
        assert("claims"@.len() == 6);
        assert(members[0].0 == "id"@);
        assert(members[1].0 == "claims"@);
        lemma_field_at(members, "id"@, 0);
        lemma_field_at(members, "claims"@, 1);
    }

    /// Reading the JSON form of a list gives the list back.
    pub proof fn lemma_list_round_trip(values: Seq<SubjectClaimsView>)
        ensures
            SubjectClaimsView::list_from_json(Some(SubjectClaimsView::list_to_json(values))) == Some(values),
    {
        assert forall|k: int| 0 <= k < values.len() implies (SubjectClaimsView::reader())(
            (SubjectClaimsView::writer())(#[trigger] values[k]),
        ) == Some(values[k]) by {
            values[k].lemma_round_trip();
        }
        lemma_list_round_trip(values, values.len() as int, SubjectClaimsView::writer(), SubjectClaimsView::reader());
        assert(values.take(values.len() as int) =~= values);
    }
}

impl SubjectClaims {
    /// The values of a list, item by item.
    pub open spec fn list_view(values: Seq<SubjectClaims>) -> Seq<SubjectClaimsView> {
        Seq::new(values.len(), |i: int| values[i]@)
    }

    /// A copy of this claim set.
    pub fn duplicate(&self) -> (copy: SubjectClaims)
        ensures
            copy@ == self@,
    {
        SubjectClaims {
            id: self.id.clone(),
            claims: self.claims.duplicate(),
        }
    }

    /// The JSON form of this claim set.
    pub fn to_json(&self) -> (json: Json)
        ensures
            json@ == self@.to_json(),
    {
        let members = vec![
            Json::member("id", Json::of_optional_text(&self.id)),
            Json::member("claims", self.claims.duplicate()),
        ];
        proof {
            lemma_obj_view(members);
            assert(members_view(members@) =~= self@.to_json()->Obj_0);
        }
        Json::Obj(members)
    }

    /// Reads a claim set from its JSON form.
    pub fn from_json(json: &Json) -> (value: Option<SubjectClaims>)
        ensures
            value.is_some() == SubjectClaimsView::from_json(json@).is_some(),
            value matches Some(v) ==> SubjectClaimsView::from_json(json@) == Some(v@),
    {
        match json {
            Json::Obj(_) => {},
            _ => {
                return None;
            },
        }
        let id = match json.optional_text_field("id") {
            Ok(value) => value,
            Err(_) => {
                return None;
            },
        };
        let claims = match json.get("claims") {
            Some(value) => value.duplicate(),
            None => {
                return None;
            },
        };
        Some(SubjectClaims { id, claims })
    }

    /// A copy of a list.
    pub fn list_duplicate(values: &Vec<SubjectClaims>) -> (copies: Vec<SubjectClaims>)
        ensures
            SubjectClaims::list_view(copies@) == SubjectClaims::list_view(values@),
    {
        let mut copies: Vec<SubjectClaims> = Vec::new();
        let mut i: usize = 0;
        while i < values.len()
            invariant
                i <= values.len(),
                copies@.len() == i,
                forall|k: int| 0 <= k < i ==> (#[trigger] copies@[k])@ == values@[k]@,
            decreases values.len() - i,
        {
            copies.push(values[i].duplicate());
            i += 1;
        }
        assert(SubjectClaims::list_view(copies@) =~= SubjectClaims::list_view(values@));
        copies
    }

    /// The JSON form of a list.
    pub fn list_to_json(values: &Vec<SubjectClaims>) -> (json: Json)
        ensures
            json@ == SubjectClaimsView::list_to_json(SubjectClaims::list_view(values@)),
    {
        let mut items: Vec<Json> = Vec::new();
        let mut i: usize = 0;
        while i < values.len()
            invariant
                i <= values.len(),
                items@.len() == i,
                forall|k: int| 0 <= k < i ==> (#[trigger] items@[k])@ == values@[k]@.to_json(),
            decreases values.len() - i,
        {
            items.push(values[i].to_json());
            i += 1;
        }
        proof {
            lemma_arr_view(items);
            assert(items_view(items@) =~= list_to_json(
                SubjectClaims::list_view(values@),
                SubjectClaimsView::writer(),
            ));
        }
        Json::Arr(items)
    }

    /// Reads a list from the member that holds it.
    pub fn list_from_json(member: Option<&Json>) -> (values: Option<Vec<SubjectClaims>>)
        ensures
            values.is_some() == SubjectClaimsView::list_from_json(member_view(member)).is_some(),
            values matches Some(list) ==> SubjectClaimsView::list_from_json(member_view(member)) == Some(
                SubjectClaims::list_view(list@),
            ),
    {
        match member {
            None => Some(Vec::new()),
            Some(Json::Null) => Some(Vec::new()),
            Some(Json::Arr(items)) => {
                let ghost all = items_view(items@);
                proof {
                    lemma_arr_view(*items);
                }
                let mut values: Vec<SubjectClaims> = Vec::new();
                let mut i: usize = 0;
                assert(SubjectClaims::list_view(values@) =~= Seq::<SubjectClaimsView>::empty());
                while i < items.len()
                    invariant
                        i <= items.len(),
                        all == items_view(items@),
                        member_view(member) == Some(JsonView::Arr(all)),
                        list_from_json(all, i as int, SubjectClaimsView::reader()) == Some(
                            SubjectClaims::list_view(values@),
                        ),
                    decreases items.len() - i,
                {
                    match SubjectClaims::from_json(&items[i]) {
                        Some(value) => {
                            let ghost before = SubjectClaims::list_view(values@);
                            values.push(value);
                            assert(SubjectClaims::list_view(values@) =~= before.push(value@));
                        },
                        None => {
                            proof {
                                assert(list_from_json(all, i as int + 1, SubjectClaimsView::reader()) is None);
                                lemma_list_none(
                                    all,
                                    i as int + 1,
                                    items.len() as int,
                                    SubjectClaimsView::reader(),
                                );
                            }
                            return None;
                        },
                    }
                    i += 1;
                }
                Some(values)
            },
            Some(_) => None,
        }
    }
}

/// A credential as the holder keeps it. It is written once, when it has been
/// issued, and from then on only replaced as a whole.
#[derive(Clone, Debug, Default, PartialEq, Eq)]
pub struct Credential {
    /// The identifier of the credential.
    pub id: String,
    /// The identifier of the issuer.
    pub issuer: String,
    /// The name of the issuer; empty where the issuer gave none.
    pub issuer_name: String,
    /// The credential as it was issued: the signed envelope, kept as it came.
    pub issued: String,
    /// The types that the credential declares.
    pub type_: Vec<String>,
    /// The format of the issued credential.
    pub format: String,
    /// The claims, subject by subject.
    pub subject_claims: Vec<SubjectClaims>,
    /// The issuer's definitions of the claims, as they were when the credential
    /// was issued.
    pub claim_definitions: Json,
    /// When the credential was issued, in RFC 3339.
    pub issuance_date: String,
    /// From when the credential is valid, in RFC 3339.
    pub valid_from: Option<String>,
    /// Until when the credential is valid, in RFC 3339.
    pub valid_until: Option<String>,
    /// The issuer's display records, as they were when the credential was
    /// issued.
    pub display: Vec<CredentialDisplay>,
    /// The logo that was fetched for the credential.
    pub logo: Option<ImageData>,
    /// The background image that was fetched for the credential.
    pub background: Option<ImageData>,
}

/// The mathematical value of a [`Credential`].
pub ghost struct CredentialView {
    pub id: Seq<char>,
    pub issuer: Seq<char>,
    pub issuer_name: Seq<char>,
    pub issued: Seq<char>,
    pub type_: Seq<Seq<char>>,
    pub format: Seq<char>,
    pub subject_claims: Seq<SubjectClaimsView>,
    pub claim_definitions: JsonView,
    pub issuance_date: Seq<char>,
    pub valid_from: Option<Seq<char>>,
    pub valid_until: Option<Seq<char>>,
    pub display: Seq<CredentialDisplayView>,
    pub logo: Option<ImageDataView>,
    pub background: Option<ImageDataView>,
}

impl View for Credential {
    type V = CredentialView;

    open spec fn view(&self) -> CredentialView {
        CredentialView {
            id: self.id@,
            issuer: self.issuer@,
            issuer_name: self.issuer_name@,
            issued: self.issued@,
            type_: strings_view(self.type_@),
            format: self.format@,
            subject_claims: SubjectClaims::list_view(self.subject_claims@),
            claim_definitions: self.claim_definitions@,
            issuance_date: self.issuance_date@,
            valid_from: optional_string_view(self.valid_from),
            valid_until: optional_string_view(self.valid_until),
            display: CredentialDisplay::list_view(self.display@),
            logo: ImageData::optional_view(self.logo),
            background: ImageData::optional_view(self.background),
        }
    }
}

impl CredentialView {
    /// The JSON form of a credential: an object with the members `id`,
    /// `issuer`, `issuer_name`, `issued`, `type`, `format`, `subject_claims`,
    /// `claim_definitions`, `issuance_date`, `valid_from`, `valid_until`,
    /// `display`, `logo`, `background`.
    pub open spec fn to_json(self) -> JsonView {
        JsonView::Obj(
            seq![
                ("id"@, JsonView::Str(self.id)),
                ("issuer"@, JsonView::Str(self.issuer)),
                ("issuer_name"@, JsonView::Str(self.issuer_name)),
                ("issued"@, JsonView::Str(self.issued)),
                ("type"@, JsonView::of_texts(self.type_)),
                ("format"@, JsonView::Str(self.format)),
                ("subject_claims"@, SubjectClaimsView::list_to_json(self.subject_claims)),
                ("claim_definitions"@, self.claim_definitions),
                ("issuance_date"@, JsonView::Str(self.issuance_date)),
                ("valid_from"@, JsonView::of_optional_text(self.valid_from)),
                ("valid_until"@, JsonView::of_optional_text(self.valid_until)),
                ("display"@, CredentialDisplayView::list_to_json(self.display)),
                ("logo"@, ImageDataView::optional_to_json(self.logo)),
                ("background"@, ImageDataView::optional_to_json(self.background)),
            ],
        )
    }

    /// The credential that a JSON value stands for: `None` unless it is an
    /// object each of whose members reads as its field.
    pub open spec fn from_json(json: JsonView) -> Option<CredentialView> {
        if json is Obj
            && json.text_field("id"@) is Some
            && json.text_field("issuer"@) is Some
            && json.text_field("issuer_name"@) is Some
            && json.text_field("issued"@) is Some
            && json.texts_field("type"@) is Some
            && json.text_field("format"@) is Some
            && SubjectClaimsView::list_from_json(json.field("subject_claims"@)) is Some
            && json.field("claim_definitions"@) is Some
            && json.text_field("issuance_date"@) is Some
            && json.optional_text_field("valid_from"@) is Ok
            && json.optional_text_field("valid_until"@) is Ok
            && CredentialDisplayView::list_from_json(json.field("display"@)) is Some
            && ImageDataView::optional_from_json(json.field("logo"@)) is Ok
            && ImageDataView::optional_from_json(json.field("background"@)) is Ok
        {
            Some(
                CredentialView {
                    id: json.text_field("id"@)->Some_0,
                    issuer: json.text_field("issuer"@)->Some_0,
                    issuer_name: json.text_field("issuer_name"@)->Some_0,
                    issued: json.text_field("issued"@)->Some_0,
                    type_: json.texts_field("type"@)->Some_0,
                    format: json.text_field("format"@)->Some_0,
                    subject_claims: SubjectClaimsView::list_from_json(json.field("subject_claims"@))->Some_0,
                    claim_definitions: json.field("claim_definitions"@)->Some_0,
                    issuance_date: json.text_field("issuance_date"@)->Some_0,
                    valid_from: json.optional_text_field("valid_from"@)->Ok_0,
                    valid_until: json.optional_text_field("valid_until"@)->Ok_0,
                    display: CredentialDisplayView::list_from_json(json.field("display"@))->Some_0,
                    logo: ImageDataView::optional_from_json(json.field("logo"@))->Ok_0,
                    background: ImageDataView::optional_from_json(json.field("background"@))->Ok_0,
                },
            )
        } else {
            None
        }
    }

    /// Reading the JSON form of a credential gives it back.
    pub proof fn lemma_round_trip(self)
        ensures
            CredentialView::from_json(self.to_json()) == Some(self),
    {
        reveal_strlit("id");
        reveal_strlit("issuer");
        reveal_strlit("issuer_name");
        reveal_strlit("issued");
        reveal_strlit("type");
        reveal_strlit("format");
        reveal_strlit("subject_claims");
        reveal_strlit("claim_definitions");
        reveal_strlit("issuance_date");
        reveal_strlit("valid_from");
        reveal_strlit("valid_until");
        reveal_strlit("display");
        reveal_strlit("logo");
        reveal_strlit("background");
        let members = self.to_json()->Obj_0;
        assert("id"@.len() == 2);
        assert("issuer"@.len() == 6);
        assert("issuer_name"@.len() == 11);
        assert("issued"@.len() == 6);
        assert("type"@.len() == 4);
        assert("format"@.len() == 6);
        assert("subject_claims"@.len() == 14);
        assert("claim_definitions"@.len() == 17);
        assert("issuance_date"@.len() == 13);
        assert("valid_from"@.len() == 10);
        assert("valid_until"@.len() == 11);
        assert("display"@.len() == 7);
        assert("logo"@.len() == 4);
        assert("background"@.len() == 10);
        assert(members[0].0 == "id"@);
        assert(members[1].0 == "issuer"@);
        assert(members[2].0 == "issuer_name"@);
        assert(members[3].0 == "issued"@);
        assert(members[4].0 == "type"@);
        assert(members[5].0 == "format"@);
        assert(members[6].0 == "subject_claims"@);
        assert(members[7].0 == "claim_definitions"@);
        assert(members[8].0 == "issuance_date"@);
        assert(members[9].0 == "valid_from"@);
        assert(members[10].0 == "valid_until"@);
        assert(members[11].0 == "display"@);
        assert(members[12].0 == "logo"@);
        assert(members[13].0 == "background"@);
        assert("issued"@[5] != "issuer"@[5]);
        assert("format"@[0] != "issuer"@[0]);
        assert("format"@[0] != "issued"@[0]);
        assert("valid_until"@[0] != "issuer_name"@[0]);
        assert("logo"@[0] != "type"@[0]);
        assert("background"@[0] != "valid_from"@[0]);
        lemma_field_at(members, "id"@, 0);
        lemma_field_at(members, "issuer"@, 1);
        lemma_field_at(members, "issuer_name"@, 2);
        lemma_field_at(members, "issued"@, 3);
        lemma_field_at(members, "type"@, 4);
        lemma_field_at(members, "format"@, 5);
        lemma_field_at(members, "subject_claims"@, 6);
        lemma_field_at(members, "claim_definitions"@, 7);
        lemma_field_at(members, "issuance_date"@, 8);
        lemma_field_at(members, "valid_from"@, 9);
        lemma_field_at(members, "valid_until"@, 10);
        lemma_field_at(members, "display"@, 11);
        lemma_field_at(members, "logo"@, 12);
        lemma_field_at(members, "background"@, 13);
        lemma_texts_of_texts(self.type_, self.type_.len() as int);
        assert(self.type_.take(self.type_.len() as int) =~= self.type_);
        SubjectClaimsView::lemma_list_round_trip(self.subject_claims);
        CredentialDisplayView::lemma_list_round_trip(self.display);
        ImageDataView::lemma_optional_round_trip(self.logo);
        ImageDataView::lemma_optional_round_trip(self.background);
    }
}

impl Credential {
    /// A copy of this credential.
    pub fn duplicate(&self) -> (copy: Credential)
        ensures
            copy@ == self@,
    {
        Credential {
            id: self.id.clone(),
            issuer: self.issuer.clone(),
            issuer_name: self.issuer_name.clone(),
            issued: self.issued.clone(),
            type_: duplicate_strings(&self.type_),
            format: self.format.clone(),
            subject_claims: SubjectClaims::list_duplicate(&self.subject_claims),
            claim_definitions: self.claim_definitions.duplicate(),
            issuance_date: self.issuance_date.clone(),
            valid_from: self.valid_from.clone(),
            valid_until: self.valid_until.clone(),
            display: CredentialDisplay::list_duplicate(&self.display),
            logo: ImageData::optional_duplicate(&self.logo),
            background: ImageData::optional_duplicate(&self.background),
        }
    }

    /// The JSON form of this credential.
    pub fn to_json(&self) -> (json: Json)
        ensures
            json@ == self@.to_json(),
    {
        let members = vec![
            Json::member("id", Json::Str(self.id.clone())),
            Json::member("issuer", Json::Str(self.issuer.clone())),
            Json::member("issuer_name", Json::Str(self.issuer_name.clone())),
            Json::member("issued", Json::Str(self.issued.clone())),
            Json::member("type", Json::of_texts(&self.type_)),
            Json::member("format", Json::Str(self.format.clone())),
            Json::member("subject_claims", SubjectClaims::list_to_json(&self.subject_claims)),
            Json::member("claim_definitions", self.claim_definitions.duplicate()),
            Json::member("issuance_date", Json::Str(self.issuance_date.clone())),
            Json::member("valid_from", Json::of_optional_text(&self.valid_from)),
            Json::member("valid_until", Json::of_optional_text(&self.valid_until)),
            Json::member("display", CredentialDisplay::list_to_json(&self.display)),
            Json::member("logo", ImageData::optional_to_json(&self.logo)),
            Json::member("background", ImageData::optional_to_json(&self.background)),
        ];
        proof {
            lemma_obj_view(members);
            assert(members_view(members@) =~= self@.to_json()->Obj_0);
        }
        Json::Obj(members)
    }

    /// Reads a credential from its JSON form.
    pub fn from_json(json: &Json) -> (value: Option<Credential>)
        ensures
            value.is_some() == CredentialView::from_json(json@).is_some(),
            value matches Some(v) ==> CredentialView::from_json(json@) == Some(v@),
    {
        match json {
            Json::Obj(_) => {},
            _ => {
                return None;
            },
        }
        let id = match json.text_field("id") {
            Some(value) => value,
            None => {
                return None;
            },
        };
        let issuer = match json.text_field("issuer") {
            Some(value) => value,
            None => {
                return None;
            },
        };
        let issuer_name = match json.text_field("issuer_name") {
            Some(value) => value,
            None => {
                return None;
            },
        };
        let issued = match json.text_field("issued") {
            Some(value) => value,
            None => {
                return None;
            },
        };
        let type_ = match json.texts_field("type") {
            Some(value) => value,
            None => {
                return None;
            },
        };
        let format = match json.text_field("format") {
            Some(value) => value,
            None => {
                return None;
            },
        };
        let subject_claims = match SubjectClaims::list_from_json(json.get("subject_claims")) {
            Some(value) => value,
            None => {
                return None;
            },
        };
        let claim_definitions = match json.get("claim_definitions") {
            Some(value) => value.duplicate(),
            None => {
                return None;
            },
        };
        let issuance_date = match json.text_field("issuance_date") {
            Some(value) => value,
            None => {
                return None;
            },
        };
        let valid_from = match json.optional_text_field("valid_from") {
            Ok(value) => value,
            Err(_) => {
                return None;
            },
        };
        let valid_until = match json.optional_text_field("valid_until") {
            Ok(value) => value,
            Err(_) => {
                return None;
            },
        };
        let display = match CredentialDisplay::list_from_json(json.get("display")) {
            Some(value) => value,
            None => {
                return None;
            },
        };
        let logo = match ImageData::optional_from_json(json.get("logo")) {
            Ok(value) => value,
            Err(_) => {
                return None;
            },
        };
        let background = match ImageData::optional_from_json(json.get("background")) {
            Ok(value) => value,
            Err(_) => {
                return None;
            },
        };
        Some(Credential { id, issuer, issuer_name, issued, type_, format, subject_claims, claim_definitions, issuance_date, valid_from, valid_until, display, logo, background })
    }
}
/// The credential that the bytes of a JSON text stand for: `None` where the
/// bytes are no JSON or the JSON is no credential.
pub open spec fn credential_of_bytes(bytes: Seq<u8>) -> Option<CredentialView> {
    match json_parsed(bytes) {
        Some(json) => CredentialView::from_json(json),
        None => None,
    }
}

impl CredentialView {
    /// The bytes of the credential as JSON text.
    pub open spec fn bytes(self) -> Seq<u8> {
        self.to_json().printed()
    }
}

impl Credential {
    /// The value of an optional credential.
    pub open spec fn optional_view(value: Option<Credential>) -> Option<CredentialView> {
        match value {
            Some(v) => Some(v@),
            None => None,
        }
    }

    /// The values of a list of credentials, one by one.
    pub open spec fn list_view(values: Seq<Credential>) -> Seq<CredentialView> {
        Seq::new(values.len(), |i: int| values[i]@)
    }

    /// A copy of a list of credentials.
    pub fn list_duplicate(values: &Vec<Credential>) -> (copies: Vec<Credential>)
        ensures
            Credential::list_view(copies@) == Credential::list_view(values@),
    {
        let mut copies: Vec<Credential> = Vec::new();
        let mut i: usize = 0;
        while i < values.len()
            invariant
                i <= values.len(),
                copies@.len() == i,
                forall|k: int| 0 <= k < i ==> (#[trigger] copies@[k])@ == values@[k]@,
            decreases values.len() - i,
        {
            copies.push(values[i].duplicate());
            i += 1;
        }
        assert(Credential::list_view(copies@) =~= Credential::list_view(values@));
        copies
    }

    /// Writes the credential as JSON text, as it is stored. Writing a
    /// credential does not fail.
    pub fn encode(&self) -> (printed: Result<Vec<u8>, String>)
        ensures
            printed matches Ok(bytes) && bytes@ == self@.bytes(),
    {
        self.to_json().print()
    }

    /// Reads a credential from the JSON text that was stored.
    pub fn decode(bytes: &[u8]) -> (credential: Option<Credential>)
        ensures
            credential.is_some() == credential_of_bytes(bytes@).is_some(),
            credential matches Some(c) ==> credential_of_bytes(bytes@) == Some(c@),
    {
        match Json::parse(bytes) {
            Ok(json) => Credential::from_json(&json),
            Err(_) => None,
        }
    }
}

} // verus!
