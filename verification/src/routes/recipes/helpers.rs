use crate::database::models::recipe::{Poster, PosterView};
use crate::recipe_io::{RecipeFileJson, RecipeFileJsonView};
use crate::text::{i32_to_decimal, signed_decimal};
use vstd::prelude::*;

verus! {

/// The largest number of recipes that one page holds.
pub const PAGE_LIMIT: u32 = 10;

/// The paging that a caller asks for; either part may be left out.
#[derive(Clone, Copy, Debug)]
pub struct GetRecipeQueryParams {
    pub offset: Option<u32>,
    pub limit: Option<u32>,
}

/// The offset that is used for a request: the one asked for, or 0.
pub open spec fn effective_offset(offset: Option<u32>) -> u32 {
    match offset {
        Some(offset) => offset,
        None => 0,
    }
}

/// The limit that is used for a request: the one asked for but never more than
/// `PAGE_LIMIT`, and `PAGE_LIMIT` where none was asked for.
pub open spec fn effective_limit(limit: Option<u32>) -> u32 {
    match limit {
        Some(limit) => if limit > PAGE_LIMIT {
            PAGE_LIMIT
        } else {
            limit
        },
        None => PAGE_LIMIT,
    }
}

impl GetRecipeQueryParams {
    /// The offset and limit that are used for this request.
    pub fn effective(&self) -> (page: (u32, u32))
        ensures
            page.0 == effective_offset(self.offset),
            page.1 == effective_limit(self.limit),
            page.1 <= PAGE_LIMIT,
    {
        let limit = match self.limit {
            Some(limit) => if limit > PAGE_LIMIT {
                PAGE_LIMIT
            } else {
                limit
            },
            None => PAGE_LIMIT,
        };
        let offset = match self.offset {
            Some(offset) => offset,
            None => 0,
        };
        (offset, limit)
    }
}

/// The rows that a listing hands out of `rows`, the whole table in the order of the
/// listing: `offset` rows are passed over, then at most `limit` rows are taken.
pub open spec fn page_of<T>(rows: Seq<T>, offset: u32, limit: u32) -> Seq<T> {
    let from = if offset <= rows.len() {
        offset as int
    } else {
        rows.len() as int
    };
    let to = if from + limit <= rows.len() {
        from + limit
    } else {
        rows.len() as int
    };
    rows.subrange(from, to)
}

/// Whatever a caller asks for, a page has at most `PAGE_LIMIT` rows, and they stand
/// in the page as they stand in the table.
pub proof fn law_page_is_bounded<T>(rows: Seq<T>, params: GetRecipeQueryParams)
    ensures
        ({
            let page = page_of(
                rows,
                effective_offset(params.offset),
                effective_limit(params.limit),
            );
            &&& page.len() <= PAGE_LIMIT
            &&& forall|i: int|
                0 <= i < page.len() ==> page[i] == rows[effective_offset(params.offset) + i]
        }),
{
}

/// A request that names neither offset nor limit gets the first `PAGE_LIMIT` rows of
/// the table, or all of them if there are fewer.
pub proof fn law_default_page_is_first<T>(rows: Seq<T>)
    ensures
        ({
            let page = page_of(rows, effective_offset(None), effective_limit(None));
            page == if rows.len() <= PAGE_LIMIT {
                rows
            } else {
                rows.take(PAGE_LIMIT as int)
            }
        }),
{
}

/// The thumbnail that came with a form: what the upload says of itself.
#[derive(Debug)]
pub struct Upload {
    pub content_type: Option<String>,
    pub file_name: Option<String>,
}

/// The form with which a recipe is created. `recipe` is `None` where the submitted
/// text could not be read as a recipe.
#[derive(Debug)]
pub struct CreateRecipeForm {
    pub thumbnail: Option<Upload>,
    pub recipe: Option<RecipeFileJson>,
}

/// The form with which a recipe is edited. `recipe` is `None` where the submitted
/// text could not be read as a recipe.
#[derive(Debug)]
pub struct EditRecipeForm {
    pub recipe: Option<RecipeFileJson>,
    pub recipe_id: i32,
}

/// A recipe as it is shown: its content, its poster and its row.
#[derive(Debug)]
pub struct FullRecipePayload {
    pub recipe: RecipeFileJson,
    pub poster: Poster,
    pub id: i32,
    /// When the recipe was made, in seconds since the epoch.
    pub date_created: i64,
    pub thumbnail: Option<String>,
}

/// A `FullRecipePayload` as plain values, as contracts speak of it.
pub struct FullRecipePayloadView {
    pub recipe: RecipeFileJsonView,
    pub poster: PosterView,
    pub id: i32,
    pub date_created: i64,
    pub thumbnail: Option<Seq<char>>,
}

impl View for FullRecipePayload {
    type V = FullRecipePayloadView;

    open spec fn view(&self) -> FullRecipePayloadView {
        FullRecipePayloadView {
            recipe: self.recipe@,
            poster: self.poster@,
            id: self.id,
            date_created: self.date_created,
            thumbnail: crate::database::models::recipe::text_of(self.thumbnail),
        }
    }
}

/// A character of a UUID in its usual form: a lower-case hexadecimal digit or a
/// hyphen.
pub open spec fn is_uuid_char(c: char) -> bool {
    '0' <= c <= '9' || 'a' <= c <= 'f' || c == '-'
}

/// A text of the length and alphabet of a UUID in its usual form.
pub open spec fn is_uuid_text(s: Seq<char>) -> bool {
    s.len() == 36 && forall|i: int| 0 <= i < s.len() ==> is_uuid_char(#[trigger] s[i])
}

/// Draws a random UUID with `Uuid::new_v4` of the `uuid` crate and writes it out in
/// its usual form: 36 characters, lower-case hexadecimal digits and hyphens. Nothing
/// more is known of it: every call draws anew.
#[verifier::external_body]
fn random_suffix() -> (s: String)
    ensures
        is_uuid_text(s@),
{
    uuid::Uuid::new_v4().to_string()
}

/// The name of the document of a recipe of the user `owner`: the owner's id, a
/// hyphen, and a suffix that tells the owner's recipes apart.
pub open spec fn document_name(owner: i32, suffix: Seq<char>) -> Seq<char> {
    signed_decimal(owner as int) + seq!['-'] + suffix
}

/// The name of the document of a recipe of the user `owner`, with the given suffix.
pub fn document_ref_with(owner: i32, suffix: &str) -> (name: String)
    ensures
        name@ == document_name(owner, suffix@),
{
    let mut name = i32_to_decimal(owner);
    proof {
        reveal_strlit("-");
    }
    name.append("-");
    name.append(suffix);
    name
}

/// A fresh name for the document of a recipe of the user `owner`.
pub fn new_document_ref(owner: i32) -> (name: String)
    ensures
        exists|suffix: Seq<char>| is_uuid_text(suffix) && name@ == document_name(owner, suffix),
{
    let suffix = random_suffix();
    document_ref_with(owner, suffix.as_str())
}

} // verus!
