//! The `GetDetails` endpoint: retrieves information about a set of
//! published files.
//!
//! The remote service answers with one entry per requested ID. An entry
//! carries no discriminant: it either has the full set of fields of a
//! valid published file, or the short set of an invalid one (an ID that
//! no published file has). The entries are resolved structurally, the
//! valid shape attempted first, and an entry that fits neither shape
//! fails the whole call with the endpoint's own error kind.

use vstd::prelude::*;

use crate::Steam;
use crate::encode::{
    bool_to_string, optional_argument_bool, optional_argument_i32, optional_argument_u32,
    spec_bool, spec_dec, spec_dec_signed, spec_optional, spec_url_encode, u32_to_string,
    u64_to_string, url_encode,
};
use crate::errors::PublishedFileServiceError;
use crate::published_file_service::{interface, spec_interface};
use crate::{endpoint_url, spec_endpoint_url};

verus! {

/// Name of this endpoint, as the URL path carries it.
pub open spec fn spec_endpoint() -> Seq<char> {
    "GetDetails"@
}

/// Version of this endpoint, as the URL path carries it.
pub open spec fn spec_version() -> Seq<char> {
    "1"@
}

/// A published file whose details came back in full (the valid shape).
#[derive(Debug, Clone, PartialEq)]
pub struct File {
    /// Result status of the file.
    pub result: u64,
    /// The published file ID.
    pub published_file_id: String,
    /// Account that created the file.
    pub creator: String,
    /// Name of the file.
    pub filename: String,
    /// Title of the file.
    pub title: String,
    /// Description of the file.
    pub description: String,
    /// When the file was created.
    pub time_created: u64,
    /// When the file was last updated.
    pub time_updated: u64,
}

/// An invalid file (a file with the given ID does not exist).
#[derive(Debug, Clone, PartialEq)]
pub struct InvalidFile {
    /// Result status of the file.
    pub result: u64,
    /// The published file ID.
    pub published_file_id: String,
    /// Language of the file.
    pub language: u32,
}

/// Whether the file details of a requested ID were valid.
#[derive(Debug, Clone, PartialEq)]
pub enum FileDetailResult {
    /// A valid file.
    Valid(File),
    /// An invalid file.
    Invalid(InvalidFile),
}

/// Published file information for a set of requested IDs.
#[derive(Debug, Clone, PartialEq)]
pub struct FileDetails {
    /// Details of published files with the specified IDs.
    pub published_file_details: Vec<FileDetailResult>,
}

/// One entry of the wire payload, read field by field before its shape
/// is known: the fields that are present decide which shape the entry
/// takes, since the wire format carries no discriminant.
#[derive(Debug, PartialEq)]
pub struct RawFileDetail {
    /// Result status of the entry; both shapes carry it.
    pub result: u64,
    /// The published file ID; both shapes carry it.
    pub published_file_id: String,
    /// Language, carried by the invalid shape.
    pub language: Option<u32>,
    /// Creator account, carried by the valid shape.
    pub creator: Option<String>,
    /// File name, carried by the valid shape.
    pub filename: Option<String>,
    /// Title, carried by the valid shape.
    pub title: Option<String>,
    /// Description, carried by the valid shape.
    pub description: Option<String>,
    /// Creation time, carried by the valid shape.
    pub time_created: Option<u64>,
    /// Last update time, carried by the valid shape.
    pub time_updated: Option<u64>,
}

/// Whether a raw entry carries every field of the valid shape.
pub open spec fn spec_has_valid_shape(raw: RawFileDetail) -> bool {
    &&& raw.creator is Some
    &&& raw.filename is Some
    &&& raw.title is Some
    &&& raw.description is Some
    &&& raw.time_created is Some
    &&& raw.time_updated is Some
}

/// Whether a raw entry carries the fields of the invalid shape.
pub open spec fn spec_has_invalid_shape(raw: RawFileDetail) -> bool {
    raw.language is Some
}

/// Resolves one raw entry structurally: the valid shape is attempted
/// first, the invalid shape second; an entry that fits neither fails.
pub open spec fn spec_resolve(raw: RawFileDetail) -> Option<FileDetailResult> {
    if spec_has_valid_shape(raw) {
        Option::Some(
            FileDetailResult::Valid(
                File {
                    result: raw.result,
                    published_file_id: raw.published_file_id,
                    creator: raw.creator->0,
                    filename: raw.filename->0,
                    title: raw.title->0,
                    description: raw.description->0,
                    time_created: raw.time_created->0,
                    time_updated: raw.time_updated->0,
                },
            ),
        )
    } else if spec_has_invalid_shape(raw) {
        Option::Some(
            FileDetailResult::Invalid(
                InvalidFile {
                    result: raw.result,
                    published_file_id: raw.published_file_id,
                    language: raw.language->0,
                },
            ),
        )
    } else {
        Option::None
    }
}

/// Resolves every entry of a payload, in order; the whole payload fails
/// when any entry fails.
pub open spec fn spec_resolve_all(entries: Seq<RawFileDetail>) -> Option<Seq<FileDetailResult>>
    decreases entries.len(),
{
    if entries.len() == 0 {
        Option::Some(Seq::empty())
    } else {
        match (spec_resolve_all(entries.drop_last()), spec_resolve(entries.last())) {
            (Option::Some(rest), Option::Some(x)) => Option::Some(rest.push(x)),
            _ => Option::None,
        }
    }
}

/// Structural resolution preserves the payload: when it succeeds it
/// yields exactly one resolved entry per raw entry, in input order, and
/// it fails exactly when some entry fits neither shape.
pub proof fn lemma_resolve_all_shape(entries: Seq<RawFileDetail>)
    ensures
        (spec_resolve_all(entries) is None) <==> (exists|j: int|
            0 <= j < entries.len() && spec_resolve(entries[j]) is None),
        spec_resolve_all(entries) is Some ==> spec_resolve_all(entries).unwrap().len()
            == entries.len(),
        spec_resolve_all(entries) is Some ==> forall|j: int|
            0 <= j < entries.len() ==> spec_resolve_all(entries).unwrap()[j] == spec_resolve(
                entries[j],
            ).unwrap(),
    decreases entries.len(),
{
    if entries.len() > 0 {
        lemma_resolve_all_shape(entries.drop_last());
        if spec_resolve_all(entries) is None {
            if spec_resolve(entries.last()) is None {
                assert(spec_resolve(entries[entries.len() - 1]) is None);
            } else {
                let j = choose|j: int|
                    0 <= j < entries.drop_last().len() && spec_resolve(
                        entries.drop_last()[j],
                    ) is None;
                assert(spec_resolve(entries[j]) is None);
            }
        }
        if exists|j: int| 0 <= j < entries.len() && spec_resolve(entries[j]) is None {
            let j = choose|j: int| 0 <= j < entries.len() && spec_resolve(entries[j]) is None;
            if j < entries.len() - 1 {
                assert(spec_resolve(entries.drop_last()[j]) is None);
            }
        }
    }
}

/// Resolves a whole payload of raw entries, in order. Succeeds, with one
/// resolved entry per raw entry, exactly when every entry fits one of
/// the two shapes.
pub fn resolve_details(entries: Vec<RawFileDetail>) -> (r: Option<Vec<FileDetailResult>>)
    ensures
        r is Some <==> spec_resolve_all(entries@) is Some,
        r is Some ==> spec_resolve_all(entries@) == Option::Some(r.unwrap()@),
{
    let ghost all = entries@;
    let mut remaining = entries;
    let mut out: Vec<FileDetailResult> = Vec::new();
    let ghost mut k: int = 0;
    while remaining.len() > 0
        invariant
            all == entries@,
            0 <= k <= all.len(),
            remaining@ =~= all.subrange(k, all.len() as int),
            spec_resolve_all(all.take(k)) == Option::Some(out@),
        decreases remaining@.len(),
    {
        let entry = remaining.remove(0);
        assert(entry == all[k]);
        match resolve_detail(entry) {
            Option::Some(resolved) => {
                out.push(resolved);
                proof {
                    assert(all.take(k + 1).drop_last() =~= all.take(k));
                    assert(all.take(k + 1).last() == all[k]);
                    k = k + 1;
                }
            },
            Option::None => {
                proof {
                    assert(exists|j: int|
                        0 <= j < all.len() && spec_resolve(all[j]) is None);
                    lemma_resolve_all_shape(all);
                }
                return Option::None;
            },
        }
    }
    proof {
        assert(all.take(k) =~= all);
    }
    Option::Some(out)
}

/// Resolves one raw payload entry, attempting the valid shape first and
/// the invalid shape second; `None` when neither shape fits.
pub fn resolve_detail(raw: RawFileDetail) -> (r: Option<FileDetailResult>)
    ensures
        r == spec_resolve(raw),
{
    let RawFileDetail {
        result,
        published_file_id,
        language,
        creator,
        filename,
        title,
        description,
        time_created,
        time_updated,
    } = raw;
    if creator.is_some() && filename.is_some() && title.is_some() && description.is_some()
        && time_created.is_some() && time_updated.is_some() {
        Option::Some(
            FileDetailResult::Valid(
                File {
                    result,
                    published_file_id,
                    creator: creator.unwrap(),
                    filename: filename.unwrap(),
                    title: title.unwrap(),
                    description: description.unwrap(),
                    time_created: time_created.unwrap(),
                    time_updated: time_updated.unwrap(),
                },
            ),
        )
    } else if language.is_some() {
        Option::Some(
            FileDetailResult::Invalid(
                InvalidFile { result, published_file_id, language: language.unwrap() },
            ),
        )
    } else {
        Option::None
    }
}

/// Message reported when a payload entry fits neither response shape.
pub open spec fn spec_shape_error_message() -> Seq<char> {
    "payload entry matches neither the valid nor the invalid file shape"@
}

/// Completes a `GetDetails` call from the outcome of its transport and
/// decode steps. A transport or decode failure, reported by its textual
/// description, and a payload with an entry that fits neither shape all
/// collapse into the endpoint's own error kind; otherwise the resolved
/// details are returned.
pub fn finish_get_details(outcome: Result<Vec<RawFileDetail>, String>) -> (r: Result<
    FileDetails,
    PublishedFileServiceError,
>)
    ensures
        (match outcome {
            Result::Err(m) => r == Result::<FileDetails, PublishedFileServiceError>::Err(
                PublishedFileServiceError::GetDetails(m),
            ),
            Result::Ok(entries) => match spec_resolve_all(entries@) {
                Option::Some(resolved) => r is Ok && r.unwrap().published_file_details@
                    == resolved,
                Option::None => r matches Result::Err(e) && e matches
                    PublishedFileServiceError::GetDetails(msg) && msg@
                    == spec_shape_error_message(),
            },
        }),
{
    match outcome {
        Result::Err(m) => Result::Err(PublishedFileServiceError::GetDetails(m)),
        Result::Ok(entries) => match resolve_details(entries) {
            Option::Some(resolved) => Result::Ok(
                FileDetails { published_file_details: resolved },
            ),
            Option::None => Result::Err(
                PublishedFileServiceError::GetDetails(
                    "payload entry matches neither the valid nor the invalid file shape".to_owned(),
                ),
            ),
        },
    }
}

/// The query string of a `GetDetails` call, in the order the endpoint
/// sends it: the key, the indexed ID list, the fixed flags, then the
/// optional arguments.
pub open spec fn spec_get_details_query(
    key: Seq<char>,
    published_file_ids: Seq<u64>,
    include_tags: bool,
    include_additional_previews: bool,
    include_children: bool,
    include_kv_tags: bool,
    include_votes: bool,
    short_description: bool,
    include_for_sale_data: bool,
    include_metadata: bool,
    language: Option<i32>,
    return_playtime_stats: u32,
    app_id: u32,
    strip_description_bbcode: bool,
    desired_revision: Option<u32>,
    include_reactions: Option<bool>,
    admin_query: bool,
) -> Seq<char> {
    "?key="@ + key + "&"@ + spec_url_encode(
        "publishedfileids"@,
        published_file_ids.map_values(|v: u64| spec_dec(v as int)),
    ) + "&includetags="@ + spec_bool(include_tags) + "&includeadditionalpreviews="@ + spec_bool(
        include_additional_previews,
    ) + "&includechildren="@ + spec_bool(include_children) + "&includekvtags="@ + spec_bool(
        include_kv_tags,
    ) + "&include_votes="@ + spec_bool(include_votes) + "&short_description="@ + spec_bool(
        short_description,
    ) + "&includeforsaledata="@ + spec_bool(include_for_sale_data) + "&includemetadata="@
        + spec_bool(include_metadata) + "&return_playtime_stats="@ + spec_dec(
        return_playtime_stats as int,
    ) + "&appid="@ + spec_dec(app_id as int) + "&strip_description_bbcode="@ + spec_bool(
        strip_description_bbcode,
    ) + "&admin_query="@ + spec_bool(admin_query) + spec_optional(
        "language"@,
        match language {
            Option::Some(n) => Option::Some(spec_dec_signed(n as int)),
            Option::None => Option::<Seq<char>>::None,
        },
    ) + spec_optional(
        "desired_revision"@,
        match desired_revision {
            Option::Some(n) => Option::Some(spec_dec(n as int)),
            Option::None => Option::<Seq<char>>::None,
        },
    ) + spec_optional(
        "includereactions"@,
        match include_reactions {
            Option::Some(b) => Option::Some(spec_bool(b)),
            Option::None => Option::<Seq<char>>::None,
        },
    )
}

/// Renders each requested ID in decimal, preserving order.
fn render_ids(ids: &Vec<u64>) -> (r: Vec<String>)
    ensures
        r.deep_view() == ids@.map_values(|v: u64| spec_dec(v as int)),
{
    let mut out: Vec<String> = Vec::new();
    let mut i: usize = 0;
    while i < ids.len()
        invariant
            i <= ids@.len(),
            out@.len() == i as int,
            forall|j: int| 0 <= j < i as int ==> out@[j]@ == spec_dec(ids@[j] as int),
        decreases ids@.len() - i,
    {
        let rendered = u64_to_string(ids[i]);
        out.push(rendered);
        i = i + 1;
    }
    proof {
        assert forall|j: int| 0 <= j < ids@.len() implies out.deep_view()[j] == ids@.map_values(
            |v: u64| spec_dec(v as int),
        )[j] by {
            assert(out@[j]@ == spec_dec(ids@[j] as int));
        }
        assert(out.deep_view() =~= ids@.map_values(|v: u64| spec_dec(v as int)));
    }
    out
}

impl Steam {
    /// Forms the full request URL of a `GetDetails` call for a set of
    /// published files.
    ///
    /// # Arguments
    ///
    /// * `published_file_ids` - Set of published file IDs to retrieve details for.
    /// * `include_tags` - If true, return tag information in the returned details.
    /// * `include_additional_previews` - If true, return preview information in the returned details.
    /// * `include_children` - If true, return children in the returned details.
    /// * `include_kv_tags` - If true, return key value tags in the returned details.
    /// * `include_votes` - If true, return vote data in the returned details.
    /// * `short_description` - If true, return a short description instead of the full description.
    /// * `include_for_sale_data` - If true, return pricing data, if applicable.
    /// * `include_metadata` - If true, populate the metadata field.
    /// * `language` - Specifies the localized text to return. Defaults to English.
    /// * `return_playtime_stats` - Return playtime stats for the specified number of days before today.
    /// * `app_id` - App that consumes the files.
    /// * `strip_description_bbcode` - Strips BBCode from descriptions.
    /// * `desired_revision` - Returns the data for the specified revision.
    /// * `include_reactions` - If true, then reactions to items will be returned.
    /// * `admin_query` - Admin tool is doing a query, return hidden items.
    #[verifier::rlimit(60)]
    pub fn get_details_url(
        &self,
        published_file_ids: &Vec<u64>,
        include_tags: bool,
        include_additional_previews: bool,
        include_children: bool,
        include_kv_tags: bool,
        include_votes: bool,
        short_description: bool,
        include_for_sale_data: bool,
        include_metadata: bool,
        language: Option<i32>,
        return_playtime_stats: u32,
        app_id: u32,
        strip_description_bbcode: bool,
        desired_revision: Option<u32>,
        include_reactions: Option<bool>,
        admin_query: bool,
    ) -> (r: String)
        ensures
            r@ == spec_endpoint_url(
                spec_interface(),
                spec_endpoint(),
                spec_version(),
                spec_get_details_query(
                    self.api_key@,
                    published_file_ids@,
                    include_tags,
                    include_additional_previews,
                    include_children,
                    include_kv_tags,
                    include_votes,
                    short_description,
                    include_for_sale_data,
                    include_metadata,
                    language,
                    return_playtime_stats,
                    app_id,
                    strip_description_bbcode,
                    desired_revision,
                    include_reactions,
                    admin_query,
                ),
            ),
    {
        let mut query = "?key=".to_owned();
        query.append(self.api_key.as_str());
        query.append("&");
        let rendered_ids = render_ids(published_file_ids);
        let encoded_ids = url_encode("publishedfileids", &rendered_ids);
        query.append(encoded_ids.as_str());
        query.append("&includetags=");
        query.append(bool_to_string(include_tags));
        query.append("&includeadditionalpreviews=");
        query.append(bool_to_string(include_additional_previews));
        query.append("&includechildren=");
        query.append(bool_to_string(include_children));
        query.append("&includekvtags=");
        query.append(bool_to_string(include_kv_tags));
        query.append("&include_votes=");
        query.append(bool_to_string(include_votes));
        query.append("&short_description=");
        query.append(bool_to_string(short_description));
        query.append("&includeforsaledata=");
        query.append(bool_to_string(include_for_sale_data));
        query.append("&includemetadata=");
        query.append(bool_to_string(include_metadata));
        query.append("&return_playtime_stats=");
        let rendered_stats = u32_to_string(return_playtime_stats);
        query.append(rendered_stats.as_str());
        query.append("&appid=");
        let rendered_app_id = u32_to_string(app_id);
        query.append(rendered_app_id.as_str());
        query.append("&strip_description_bbcode=");
        query.append(bool_to_string(strip_description_bbcode));
        query.append("&admin_query=");
        query.append(bool_to_string(admin_query));
        let rendered_language = optional_argument_i32("language", language);
        query.append(rendered_language.as_str());
        let rendered_revision = optional_argument_u32("desired_revision", desired_revision);
        query.append(rendered_revision.as_str());
        let rendered_reactions = optional_argument_bool("includereactions", include_reactions);
        query.append(rendered_reactions.as_str());
        proof {
            assert(query@ =~= spec_get_details_query(
                self.api_key@,
                published_file_ids@,
                include_tags,
                include_additional_previews,
                include_children,
                include_kv_tags,
                include_votes,
                short_description,
                include_for_sale_data,
                include_metadata,
                language,
                return_playtime_stats,
                app_id,
                strip_description_bbcode,
                desired_revision,
                include_reactions,
                admin_query,
            ));
        }
        endpoint_url(interface(), "GetDetails", "1", query.as_str())
    }
}

} // verus!
