//! Posts, and the JSON object that stands for a post on the wire.

use crate::json;
use crate::json::{contents, no_members, value_content, Json};
use vstd::prelude::*;
use vstd::string::*;

verus! {

/// A member of the JSON object that stands for a post.
#[derive(Clone, Copy, Debug, PartialEq, Eq, Structural)]
pub enum Field {
    Id,
    Slug,
    Title,
    Body,
    Category,
    Tags,
    CreatedAt,
    UpdatedAt,
}

impl Field {
    /// The key under which the member stands in the object.
    pub open spec fn key(self) -> Seq<char> {
        match self {
            Field::Id => "id"@,
            Field::Slug => "slug"@,
            Field::Title => "title"@,
            Field::Body => "body"@,
            Field::Category => "category"@,
            Field::Tags => "tags"@,
            Field::CreatedAt => "created_at"@,
            Field::UpdatedAt => "updated_at"@,
        }
    }

    /// The key under which the member stands in the object.
    pub fn name(self) -> (name: &'static str)
        ensures
            name@ == self.key(),
    {
        match self {
            Field::Id => "id",
            Field::Slug => "slug",
            Field::Title => "title",
            Field::Body => "body",
            Field::Category => "category",
            Field::Tags => "tags",
            Field::CreatedAt => "created_at",
            Field::UpdatedAt => "updated_at",
        }
    }
}

/// No two members share a key.
pub proof fn lemma_keys_differ(a: Field, b: Field)
    ensures
        a.key() == b.key() <==> a == b,
{
    reveal_strlit("id");
    reveal_strlit("slug");
    reveal_strlit("title");
    reveal_strlit("body");
    reveal_strlit("category");
    reveal_strlit("tags");
    reveal_strlit("created_at");
    reveal_strlit("updated_at");
    assert(Field::Id.key().len() == 2);
    assert(Field::Slug.key().len() == 4 && Field::Slug.key()[0] == 's');
    assert(Field::Title.key().len() == 5);
    assert(Field::Body.key().len() == 4 && Field::Body.key()[0] == 'b');
    assert(Field::Category.key().len() == 8);
    assert(Field::Tags.key().len() == 4 && Field::Tags.key()[0] == 't');
    assert(Field::CreatedAt.key().len() == 10 && Field::CreatedAt.key()[0] == 'c');
    assert(Field::UpdatedAt.key().len() == 10 && Field::UpdatedAt.key()[0] == 'u');
}

/// Why a JSON document does not stand for a post.
#[derive(Clone, Copy, Debug, PartialEq, Eq, Structural)]
pub enum Malformed {
    /// The document is not an object.
    NotAnObject,
    /// The object lacks the member.
    Missing(Field),
    /// The member is there but holds a value of the wrong kind, or a number
    /// out of the member's range.
    Invalid(Field),
}

impl Malformed {
    /// The description that a reply carries.
    pub open spec fn text(self) -> Seq<char> {
        match self {
            Malformed::NotAnObject => "expected a JSON object"@,
            Malformed::Missing(field) => "missing field `"@ + field.key() + "`"@,
            Malformed::Invalid(field) => "invalid value for field `"@ + field.key() + "`"@,
        }
    }

    /// The description that a reply carries.
    pub fn describe(&self) -> (text: String)
        ensures
            text@ == self.text(),
    {
        match self {
            Malformed::NotAnObject => "expected a JSON object".to_owned(),
            Malformed::Missing(field) => {
                "missing field `".to_owned().concat(field.name()).concat("`")
            },
            Malformed::Invalid(field) => {
                "invalid value for field `".to_owned().concat(field.name()).concat("`")
            },
        }
    }
}

/// A post as contracts speak of it.
pub struct PostView {
    pub id: i32,
    pub slug: Seq<char>,
    pub title: Seq<char>,
    pub body: Seq<char>,
    pub category: Seq<char>,
    pub tags: Seq<Seq<char>>,
    pub created_at: i64,
    pub updated_at: i64,
}

/// A post.
///
/// The store assigns `id` when the post is added and never changes it. Posts
/// are looked up by `slug`. The handlers pass the other fields through as they
/// are; the two times are seconds since the Unix epoch.
#[derive(Clone, Debug, PartialEq, Eq)]
pub struct Post {
    pub id: i32,
    pub slug: String,
    pub title: String,
    pub body: String,
    pub category: String,
    pub tags: Vec<String>,
    pub created_at: i64,
    pub updated_at: i64,
}

/// The characters of each string, in order.
pub open spec fn texts(strings: Seq<String>) -> Seq<Seq<char>> {
    strings.map_values(|text: String| text@)
}

impl View for Post {
    type V = PostView;

    open spec fn view(&self) -> PostView {
        PostView {
            id: self.id,
            slug: self.slug@,
            title: self.title@,
            body: self.body@,
            category: self.category@,
            tags: texts(self.tags@),
            created_at: self.created_at,
            updated_at: self.updated_at,
        }
    }
}

/// The view of each post, in order.
pub open spec fn posts_view(posts: Seq<Post>) -> Seq<PostView> {
    posts.map_values(|post: Post| post@)
}

/// A JSON string for each of `tags`, in order.
pub open spec fn tags_json(tags: Seq<Seq<char>>) -> Seq<Json> {
    tags.map_values(|tag: Seq<char>| Json::Text(tag))
}

/// The JSON object that stands for a post: one member for each [`Field`].
pub open spec fn post_json(post: PostView) -> Json {
    Json::Object(
        no_members().insert(Field::Id.key(), Json::Integer(post.id as int)).insert(
            Field::Slug.key(),
            Json::Text(post.slug),
        ).insert(Field::Title.key(), Json::Text(post.title)).insert(
            Field::Body.key(),
            Json::Text(post.body),
        ).insert(Field::Category.key(), Json::Text(post.category)).insert(
            Field::Tags.key(),
            Json::List(tags_json(post.tags)),
        ).insert(Field::CreatedAt.key(), Json::Integer(post.created_at as int)).insert(
            Field::UpdatedAt.key(),
            Json::Integer(post.updated_at as int),
        ),
    )
}

/// A JSON object for each of `posts`, in order.
pub open spec fn posts_json(posts: Seq<PostView>) -> Seq<Json> {
    posts.map_values(|post: PostView| post_json(post))
}

/// The integer under `field`, which has to be there and to fit an `i64`.
pub open spec fn integer_member(document: Json, field: Field) -> Result<i64, Malformed> {
    match document.member(field.key()) {
        None => Err(Malformed::Missing(field)),
        Some(member) => match member.as_i64() {
            None => Err(Malformed::Invalid(field)),
            Some(number) => Ok(number),
        },
    }
}

/// The string under `field`, which has to be there.
pub open spec fn text_member(document: Json, field: Field) -> Result<Seq<char>, Malformed> {
    match document.member(field.key()) {
        None => Err(Malformed::Missing(field)),
        Some(member) => match member.as_text() {
            None => Err(Malformed::Invalid(field)),
            Some(text) => Ok(text),
        },
    }
}

/// Whether every one of `items` is a string.
pub open spec fn all_text(items: Seq<Json>) -> bool {
    forall|i: int| 0 <= i < items.len() ==> (#[trigger] items[i]).as_text() is Some
}

/// The characters of each of `items`, which are strings.
pub open spec fn item_texts(items: Seq<Json>) -> Seq<Seq<char>> {
    items.map_values(|item: Json| item.as_text().unwrap())
}

/// The array of strings under `field`, which has to be there.
pub open spec fn texts_member(document: Json, field: Field) -> Result<Seq<Seq<char>>, Malformed> {
    match document.member(field.key()) {
        None => Err(Malformed::Missing(field)),
        Some(member) => match member.as_list() {
            None => Err(Malformed::Invalid(field)),
            Some(items) => if all_text(items) {
                Ok(item_texts(items))
            } else {
                Err(Malformed::Invalid(field))
            },
        },
    }
}

/// The post's identifier in a document: the integer under `id`, which has to
/// fit an `i32`. Nothing else of the document is looked at.
pub open spec fn json_post_id(document: Json) -> Result<i32, Malformed> {
    if !(document is Object) {
        Err(Malformed::NotAnObject)
    } else {
        match integer_member(document, Field::Id) {
            Err(fault) => Err(fault),
            Ok(number) => if i32::MIN <= number <= i32::MAX {
                Ok(number as i32)
            } else {
                Err(Malformed::Invalid(Field::Id))
            },
        }
    }
}

/// The first reason, in the order of [`Field`], for which a document does not
/// stand for a post; `None` where it does.
pub open spec fn json_post_fault(document: Json) -> Option<Malformed> {
    if json_post_id(document) is Err {
        Some(json_post_id(document)->Err_0)
    } else if text_member(document, Field::Slug) is Err {
        Some(text_member(document, Field::Slug)->Err_0)
    } else if text_member(document, Field::Title) is Err {
        Some(text_member(document, Field::Title)->Err_0)
    } else if text_member(document, Field::Body) is Err {
        Some(text_member(document, Field::Body)->Err_0)
    } else if text_member(document, Field::Category) is Err {
        Some(text_member(document, Field::Category)->Err_0)
    } else if texts_member(document, Field::Tags) is Err {
        Some(texts_member(document, Field::Tags)->Err_0)
    } else if integer_member(document, Field::CreatedAt) is Err {
        Some(integer_member(document, Field::CreatedAt)->Err_0)
    } else if integer_member(document, Field::UpdatedAt) is Err {
        Some(integer_member(document, Field::UpdatedAt)->Err_0)
    } else {
        None
    }
}

/// The post that a document stands for. The document has to be an object with
/// a member of the right kind for each [`Field`]; members under other keys are
/// passed over.
pub open spec fn json_post(document: Json) -> Result<PostView, Malformed> {
    match json_post_fault(document) {
        Some(fault) => Err(fault),
        None => Ok(
            PostView {
                id: json_post_id(document)->Ok_0,
                slug: text_member(document, Field::Slug)->Ok_0,
                title: text_member(document, Field::Title)->Ok_0,
                body: text_member(document, Field::Body)->Ok_0,
                category: text_member(document, Field::Category)->Ok_0,
                tags: texts_member(document, Field::Tags)->Ok_0,
                created_at: integer_member(document, Field::CreatedAt)->Ok_0,
                updated_at: integer_member(document, Field::UpdatedAt)->Ok_0,
            },
        ),
    }
}

/// Reads the integer under `field`.
fn read_integer(value: &serde_json::Value, field: Field) -> (read: Result<i64, Malformed>)
    ensures
        read == integer_member(value_content(*value), field),
{
    match json::get(value, field.name()) {
        None => Err(Malformed::Missing(field)),
        Some(member) => match json::as_i64(member) {
            None => Err(Malformed::Invalid(field)),
            Some(number) => Ok(number),
        },
    }
}

/// Reads the string under `field`.
fn read_text(value: &serde_json::Value, field: Field) -> (read: Result<String, Malformed>)
    ensures
        text_member(value_content(*value), field) == match read {
            Ok(text) => Ok(text@),
            Err(fault) => Err(fault),
        },
{
    match json::get(value, field.name()) {
        None => Err(Malformed::Missing(field)),
        Some(member) => match json::as_str(member) {
            None => Err(Malformed::Invalid(field)),
            Some(text) => Ok(text.to_owned()),
        },
    }
}

/// Reads the array of strings under `field`.
fn read_texts(value: &serde_json::Value, field: Field) -> (read: Result<Vec<String>, Malformed>)
    ensures
        texts_member(value_content(*value), field) == match read {
            Ok(strings) => Ok(texts(strings@)),
            Err(fault) => Err(fault),
        },
{
    let member = match json::get(value, field.name()) {
        None => { return Err(Malformed::Missing(field)); },
        Some(member) => member,
    };
    let items = match json::as_array(member) {
        None => { return Err(Malformed::Invalid(field)); },
        Some(items) => items,
    };
    let ghost list = contents(items@);
    let mut strings: Vec<String> = Vec::new();
    let mut at: usize = 0;
    while at < items.len()
        invariant
            at <= items.len(),
            list == contents(items@),
            value_content(*value).member(field.key()) == Some(value_content(*member)),
            value_content(*member).as_list() == Some(list),
            strings@.len() == at,
            forall|i: int| 0 <= i < at ==> (#[trigger] list[i]).as_text() == Some(strings@[i]@),
        decreases items.len() - at,
    {
        match json::as_str(&items[at]) {
            None => {
                assert(list[at as int] == value_content(items@[at as int]));
                assert(!all_text(list));
                return Err(Malformed::Invalid(field));
            },
            Some(text) => {
                assert(list[at as int] == value_content(items@[at as int]));
                strings.push(text.to_owned());
            },
        }
        at = at + 1;
    }
    assert(all_text(list));
    assert(item_texts(list) =~= texts(strings@));
    Ok(strings)
}

/// Reads the post's identifier from a document, looking at nothing else.
pub fn decode_post_id(value: &serde_json::Value) -> (decoded: Result<i32, Malformed>)
    ensures
        decoded == json_post_id(value_content(*value)),
{
    if !json::is_object(value) {
        return Err(Malformed::NotAnObject);
    }
    match read_integer(value, Field::Id) {
        Err(fault) => Err(fault),
        Ok(number) => if i32::MIN as i64 <= number && number <= i32::MAX as i64 {
            Ok(number as i32)
        } else {
            Err(Malformed::Invalid(Field::Id))
        },
    }
}

/// Reads a post from a document.
pub fn decode_post(value: &serde_json::Value) -> (decoded: Result<Post, Malformed>)
    ensures
        json_post(value_content(*value)) == match decoded {
            Ok(post) => Ok(post@),
            Err(fault) => Err(fault),
        },
{
    let id: i32 = match decode_post_id(value) {
        Err(fault) => { return Err(fault); },
        Ok(id) => id,
    };
    let slug = match read_text(value, Field::Slug) {
        Err(fault) => { return Err(fault); },
        Ok(text) => text,
    };
    let title = match read_text(value, Field::Title) {
        Err(fault) => { return Err(fault); },
        Ok(text) => text,
    };
    let body = match read_text(value, Field::Body) {
        Err(fault) => { return Err(fault); },
        Ok(text) => text,
    };
    let category = match read_text(value, Field::Category) {
        Err(fault) => { return Err(fault); },
        Ok(text) => text,
    };
    let tags = match read_texts(value, Field::Tags) {
        Err(fault) => { return Err(fault); },
        Ok(strings) => strings,
    };
    let created_at: i64 = match read_integer(value, Field::CreatedAt) {
        Err(fault) => { return Err(fault); },
        Ok(number) => number,
    };
    let updated_at: i64 = match read_integer(value, Field::UpdatedAt) {
        Err(fault) => { return Err(fault); },
        Ok(number) => number,
    };
    Ok(Post { id, slug, title, body, category, tags, created_at, updated_at })
}

/// Writes a post as a document.
pub fn encode_post(post: &Post) -> (value: serde_json::Value)
    ensures
        value_content(value) == post_json(post@),
{
    let mut tags: Vec<serde_json::Value> = Vec::new();
    let mut at: usize = 0;
    while at < post.tags.len()
        invariant
            at <= post.tags.len(),
            contents(tags@) =~= tags_json(texts(post.tags@).take(at as int)),
        decreases post.tags.len() - at,
    {
        let tag = json::string(post.tags[at].clone());
        let ghost before = tags@;
        tags.push(tag);
        at = at + 1;
        assert(contents(tags@) =~= contents(before).push(value_content(tag)));
        assert(texts(post.tags@).take(at as int) =~= texts(post.tags@).take(at - 1).push(
            post.tags@[at - 1]@,
        ));
    }
    assert(texts(post.tags@).take(at as int) =~= texts(post.tags@));
    let mut members = json::new_map();
    json::insert(&mut members, Field::Id.name().to_owned(), json::integer(post.id as i64));
    json::insert(&mut members, Field::Slug.name().to_owned(), json::string(post.slug.clone()));
    json::insert(&mut members, Field::Title.name().to_owned(), json::string(post.title.clone()));
    json::insert(&mut members, Field::Body.name().to_owned(), json::string(post.body.clone()));
    json::insert(
        &mut members,
        Field::Category.name().to_owned(),
        json::string(post.category.clone()),
    );
    json::insert(&mut members, Field::Tags.name().to_owned(), json::array(tags));
    json::insert(
        &mut members,
        Field::CreatedAt.name().to_owned(),
        json::integer(post.created_at),
    );
    json::insert(
        &mut members,
        Field::UpdatedAt.name().to_owned(),
        json::integer(post.updated_at),
    );
    json::object(members)
}

/// Writes posts as a JSON array of documents, in order.
pub fn encode_posts(posts: &Vec<Post>) -> (value: serde_json::Value)
    ensures
        value_content(value) == Json::List(posts_json(posts_view(posts@))),
{
    let mut items: Vec<serde_json::Value> = Vec::new();
    let mut at: usize = 0;
    while at < posts.len()
        invariant
            at <= posts.len(),
            contents(items@) =~= posts_json(posts_view(posts@).take(at as int)),
        decreases posts.len() - at,
    {
        let item = encode_post(&posts[at]);
        let ghost before = items@;
        items.push(item);
        at = at + 1;
        assert(contents(items@) =~= contents(before).push(value_content(item)));
        assert(posts_view(posts@).take(at as int) =~= posts_view(posts@).take(at - 1).push(
            posts@[at - 1]@,
        ));
    }
    assert(posts_view(posts@).take(at as int) =~= posts_view(posts@));
    json::array(items)
}

/// A post written as a document reads back as the same post.
pub proof fn lemma_post_round_trip(post: PostView)
    ensures
        json_post(post_json(post)) matches Ok(read) && read == post,
{
    assert forall|a: Field, b: Field| #[trigger] a.key() == #[trigger] b.key() implies a == b by {
        lemma_keys_differ(a, b);
    }
    assert(all_text(tags_json(post.tags)));
    assert(item_texts(tags_json(post.tags)) =~= post.tags);
}

} // verus!
