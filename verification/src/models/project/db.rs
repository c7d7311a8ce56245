//! The `projects` table, who may act on a project, and what its export holds.

use vstd::prelude::*;
use vstd::string::*;
use vstd::utf8::encode_utf8;

use crate::archive::{
    ExportArchive, append_to_last, archive_bytes, archive_entry_data, archive_entry_names, archive_file_open,
    archive_sizes_fit, entry_name_limit, stored_file_limit,
};
use crate::error::Error;
use crate::ids::{EntityId, uuid_hyphenated, uuid_hyphenated_string, uuid_simple};
use crate::models::candidate::db::{
    CandidateInfoRow, image_export_file_name, image_export_name, lemma_image_export_name_injective,
};
use crate::ids::{is_hex_digit, lemma_uuid_simple_injective};
use crate::text::{decimal, int_to_decimal};
use crate::permissions::authorizer::{ActionType, count_found_any, found_any};

verus! {

/// A row of the `projects` table. Times are microseconds since the Unix epoch.
#[derive(Debug)]
pub struct DbProject {
    pub id: EntityId,
    pub created_at: Option<i64>,
    pub name: String,
    pub owner_id: EntityId,
}

/// An image of a candidate to put into a project's export: the candidate's
/// canonical identifier, the name the image is stored under, and its bytes.
#[derive(Debug)]
pub struct CandidateImage {
    pub canon_id: String,
    pub image_file: String,
    pub bytes: Vec<u8>,
}

/// The statements of a project's export, in order and apart from each other by
/// blank lines: the `electionmaster`, `questionlogic`, `choicemapping` and
/// `candidateinfo` inserts.
pub open spec fn canon_inserts(
    electionmaster: Seq<char>,
    questionlogic: Seq<char>,
    choicemapping: Seq<char>,
    candidateinfo: Seq<char>,
) -> Seq<char> {
    electionmaster + "\n\n\n"@ + questionlogic + "\n\n\n"@ + choicemapping + "\n\n\n"@ + candidateinfo
}

/// The name of the SQL file in a project's export: the project's identifier,
/// its name and the time of the export (seconds since the Unix epoch), joined
/// by hyphens, with the extension `.sql`.
pub open spec fn sql_file_name(id: EntityId, name: Seq<char>, timestamp: int) -> Seq<char> {
    uuid_hyphenated(id) + "-"@ + name + "-"@ + decimal(timestamp) + ".sql"@
}

/// The archive entry of a candidate's image: under `images/`, named after the candidate.
pub open spec fn image_entry_name(canon_id: Seq<char>, image_file: Seq<char>) -> Seq<char> {
    "images/"@ + image_export_name(canon_id, image_file)
}

/// The entries of the images in a project's export: one per candidate that has
/// an image (a candidate whose image file name is empty has none), in order.
pub open spec fn image_entry_names(images: Seq<CandidateImage>) -> Seq<Seq<char>>
    decreases images.len(),
{
    if images.len() == 0 {
        Seq::empty()
    } else {
        let img = images.last();
        if img.image_file@.len() == 0 {
            image_entry_names(images.drop_last())
        } else {
            image_entry_names(images.drop_last()).push(image_entry_name(img.canon_id@, img.image_file@))
        }
    }
}

/// The entries of a project's export, in order: the SQL file, the `images/`
/// directory, and the images.
pub open spec fn export_entry_names(id: EntityId, name: Seq<char>, timestamp: int, images: Seq<CandidateImage>) -> Seq<Seq<char>> {
    seq![sql_file_name(id, name, timestamp), "images/"@] + image_entry_names(images)
}

/// What the images of a project's export hold: the bytes of each candidate's
/// image, in the order of `image_entry_names`.
pub open spec fn image_entry_data(images: Seq<CandidateImage>) -> Seq<Seq<u8>>
    decreases images.len(),
{
    if images.len() == 0 {
        Seq::empty()
    } else {
        let img = images.last();
        if img.image_file@.len() == 0 {
            image_entry_data(images.drop_last())
        } else {
            image_entry_data(images.drop_last()).push(img.bytes@)
        }
    }
}

/// What the entries of a project's export hold, in the order of
/// `export_entry_names`: `sql_bytes` in the SQL file, nothing in the
/// `images/` directory, and each image's bytes.
pub open spec fn export_entry_data(sql_bytes: Seq<u8>, images: Seq<CandidateImage>) -> Seq<Seq<u8>> {
    seq![sql_bytes, Seq::<u8>::empty()] + image_entry_data(images)
}

/// Whether every entry name of a project's export takes no more than
/// `entry_name_limit` bytes (the zip writer panics on a longer one).
pub open spec fn export_names_fit(id: EntityId, name: Seq<char>, timestamp: int, images: Seq<CandidateImage>) -> bool {
    forall|k: int|
        0 <= k < export_entry_names(id, name, timestamp, images).len() ==> encode_utf8(
            #[trigger] export_entry_names(id, name, timestamp, images)[k],
        ).len() <= entry_name_limit()
}

/// Whether the SQL text and every exported image fit in a file without the
/// zip64 option (`stored_file_limit` bytes).
pub open spec fn export_sizes_fit(sql: Seq<char>, images: Seq<CandidateImage>) -> bool {
    &&& encode_utf8(sql).len() <= stored_file_limit()
    &&& forall|i: int|
        0 <= i < images.len() && #[trigger] images[i].image_file@.len() > 0 ==> images[i].bytes@.len()
            <= stored_file_limit()
}

/// The image entries of the first `i` candidates come first among those of the first `j`.
proof fn lemma_image_entry_names_prefix(images: Seq<CandidateImage>, i: int, j: int)
    requires
        0 <= i <= j <= images.len(),
    ensures
        image_entry_names(images.take(i)).len() <= image_entry_names(images.take(j)).len(),
        forall|k: int|
            0 <= k < image_entry_names(images.take(i)).len() ==> #[trigger] image_entry_names(images.take(i))[k]
                == image_entry_names(images.take(j))[k],
    decreases j - i,
{
    if i < j {
        lemma_image_entry_names_prefix(images, i, j - 1);
        assert(images.take(j).drop_last() =~= images.take(j - 1));
    }
}

/// Whether the candidates that have an image have pairwise different
/// canonical identifiers.
pub open spec fn image_owners_distinct(images: Seq<CandidateImage>) -> bool {
    forall|i: int, j: int|
        0 <= i < j < images.len() && images[i].image_file@.len() > 0 && images[j].image_file@.len() > 0
            ==> #[trigger] images[i].canon_id@ != #[trigger] images[j].canon_id@
}

proof fn lemma_image_entry_names_distinct(images: Seq<CandidateImage>)
    requires
        image_owners_distinct(images),
    ensures
        image_entry_names(images).no_duplicates(),
        forall|k: int| 0 <= k < image_entry_names(images).len() ==> exists|i: int|
            0 <= i < images.len() && images[i].image_file@.len() > 0 && #[trigger] image_entry_names(images)[k]
                == image_entry_name(images[i].canon_id@, images[i].image_file@),
    decreases images.len(),
{
    if images.len() > 0 {
        let prefix = images.drop_last();
        assert(image_owners_distinct(prefix)) by {
            assert forall|i: int, j: int|
                0 <= i < j < prefix.len() && prefix[i].image_file@.len() > 0 && prefix[j].image_file@.len() > 0
                implies #[trigger] prefix[i].canon_id@ != #[trigger] prefix[j].canon_id@ by {
                assert(prefix[i] == images[i] && prefix[j] == images[j]);
            }
        }
        lemma_image_entry_names_distinct(prefix);
        let names = image_entry_names(prefix);
        let img = images.last();
        if img.image_file@.len() > 0 {
            let new = image_entry_name(img.canon_id@, img.image_file@);
            assert forall|k: int| 0 <= k < names.len() implies names[k] != new by {
                let i = choose|i: int|
                    0 <= i < prefix.len() && prefix[i].image_file@.len() > 0 && #[trigger] names[k]
                        == image_entry_name(prefix[i].canon_id@, prefix[i].image_file@);
                assert(prefix[i] == images[i]);
                if names[k] == new {
                    lemma_image_export_name_injective(
                        prefix[i].canon_id@,
                        prefix[i].image_file@,
                        img.canon_id@,
                        img.image_file@,
                    );
                    assert(images[i].canon_id@ != images[images.len() - 1].canon_id@);
                    assert("images/"@ + image_export_name(prefix[i].canon_id@, prefix[i].image_file@)
                        == "images/"@ + image_export_name(img.canon_id@, img.image_file@));
                    assert(image_export_name(prefix[i].canon_id@, prefix[i].image_file@)
                        =~= ("images/"@ + image_export_name(prefix[i].canon_id@, prefix[i].image_file@)).skip("images/"@.len() as int));
                    assert(image_export_name(img.canon_id@, img.image_file@)
                        =~= ("images/"@ + image_export_name(img.canon_id@, img.image_file@)).skip("images/"@.len() as int));
                }
            }
            let all = names.push(new);
            assert(image_entry_names(images) == all);
            assert forall|k: int| 0 <= k < all.len() implies exists|i: int|
                0 <= i < images.len() && images[i].image_file@.len() > 0 && #[trigger] all[k]
                    == image_entry_name(images[i].canon_id@, images[i].image_file@) by {
                if k < names.len() {
                    let i = choose|i: int|
                        0 <= i < prefix.len() && prefix[i].image_file@.len() > 0 && #[trigger] names[k]
                            == image_entry_name(prefix[i].canon_id@, prefix[i].image_file@);
                    assert(prefix[i] == images[i]);
                    assert(all[k] == names[k]);
                } else {
                    assert(all[k] == new);
                    assert(images[images.len() - 1] == img);
                }
            }
            assert(all.no_duplicates()) by {
                assert forall|a: int, b: int| 0 <= a < all.len() && 0 <= b < all.len() && a != b implies all[a] != all[b] by {
                    if a < names.len() && b < names.len() {
                        assert(all[a] == names[a] && all[b] == names[b]);
                    } else if a < names.len() {
                        assert(all[a] == names[a]);
                    } else {
                        assert(all[b] == names[b]);
                    }
                }
            }
        } else {
            assert(image_entry_names(images) == names);
            assert forall|k: int| 0 <= k < names.len() implies exists|i: int|
                0 <= i < images.len() && images[i].image_file@.len() > 0 && #[trigger] names[k]
                    == image_entry_name(images[i].canon_id@, images[i].image_file@) by {
                let i = choose|i: int|
                    0 <= i < prefix.len() && prefix[i].image_file@.len() > 0 && #[trigger] names[k]
                        == image_entry_name(prefix[i].canon_id@, prefix[i].image_file@);
                assert(prefix[i] == images[i]);
            }
        }
    }
}

/// An export holds no two entries of the same name, provided the candidates
/// with images have different canonical identifiers (which the canonical
/// identifiers of one election always are).
pub proof fn lemma_export_entries_distinct(id: EntityId, name: Seq<char>, timestamp: int, images: Seq<CandidateImage>)
    requires
        image_owners_distinct(images),
    ensures
        export_entry_names(id, name, timestamp, images).no_duplicates(),
{
    lemma_image_entry_names_distinct(images);
    lemma_uuid_simple_injective(id, id);
    reveal_strlit("images/");
    reveal_strlit(".");
    let head = seq![sql_file_name(id, name, timestamp), "images/"@];
    let imgs = image_entry_names(images);
    let all = head + imgs;
    // The SQL file's name starts with a hexadecimal digit; every other entry with `i`.
    assert(sql_file_name(id, name, timestamp)[0] == uuid_simple(id)[0]);
    assert(is_hex_digit(uuid_simple(id)[0]));
    assert forall|k: int| 0 <= k < imgs.len() implies imgs[k][0] == 'i' && imgs[k].len() > 7 by {
        let i = choose|i: int|
            0 <= i < images.len() && images[i].image_file@.len() > 0 && #[trigger] imgs[k]
                == image_entry_name(images[i].canon_id@, images[i].image_file@);
    }
    assert forall|a: int, b: int| 0 <= a < all.len() && 0 <= b < all.len() && a != b implies all[a] != all[b] by {
        if a >= 2 && b >= 2 {
            assert(all[a] == imgs[a - 2] && all[b] == imgs[b - 2]);
        } else if a >= 2 {
            assert(all[a] == imgs[a - 2]);
            assert(all[a][0] == 'i');
            assert(all[a].len() > 7);
        } else if b >= 2 {
            assert(all[b] == imgs[b - 2]);
            assert(all[b][0] == 'i');
            assert(all[b].len() > 7);
        } else {
            assert(all[1] == "images/"@);
        }
    }
}

/// Every entry of `image_entry_names(images)` is named after one of the
/// candidates that have an image, and every such candidate has its entry.
proof fn lemma_image_entry_names_members(images: Seq<CandidateImage>)
    ensures
        forall|k: int| 0 <= k < image_entry_names(images).len() ==> exists|i: int|
            0 <= i < images.len() && images[i].image_file@.len() > 0 && #[trigger] image_entry_names(images)[k]
                == image_entry_name(images[i].canon_id@, images[i].image_file@),
        forall|i: int| 0 <= i < images.len() && images[i].image_file@.len() > 0 ==> image_entry_names(images).contains(
            image_entry_name(#[trigger] images[i].canon_id@, images[i].image_file@),
        ),
    decreases images.len(),
{
    if images.len() > 0 {
        let prefix = images.drop_last();
        lemma_image_entry_names_members(prefix);
        let names = image_entry_names(prefix);
        let all = image_entry_names(images);
        let img = images.last();
        assert forall|k: int| 0 <= k < all.len() implies exists|i: int|
            0 <= i < images.len() && images[i].image_file@.len() > 0 && #[trigger] all[k]
                == image_entry_name(images[i].canon_id@, images[i].image_file@) by {
            if k < names.len() {
                let i = choose|i: int|
                    0 <= i < prefix.len() && prefix[i].image_file@.len() > 0 && #[trigger] names[k]
                        == image_entry_name(prefix[i].canon_id@, prefix[i].image_file@);
                assert(prefix[i] == images[i]);
                assert(all[k] == names[k]);
            } else {
                assert(images[images.len() - 1] == img);
            }
        }
        assert forall|i: int| 0 <= i < images.len() && images[i].image_file@.len() > 0 implies all.contains(
            image_entry_name(#[trigger] images[i].canon_id@, images[i].image_file@),
        ) by {
            let e = image_entry_name(images[i].canon_id@, images[i].image_file@);
            if i < prefix.len() {
                assert(prefix[i] == images[i]);
                assert(prefix[i].canon_id@ == images[i].canon_id@);
                let k = choose|k: int| 0 <= k < names.len() && names[k] == e;
                assert(all[k] == e);
            } else {
                assert(all[all.len() - 1] == e);
            }
        }
    }
}

/// Whether `entry` is `images/` followed by the `ImageFile` value of the
/// `candidateinfo` tuple of one of `rows` that has an image.
pub open spec fn names_an_image_of(rows: Seq<CandidateInfoRow>, entry: Seq<char>) -> bool {
    exists|k: int|
        0 <= k < rows.len() && #[trigger] rows[k].image_file@.len() > 0 && entry == "images/"@ + image_export_name(
            rows[k].canon_id@,
            rows[k].image_file@,
        )
}

/// The images of an export match the `candidateinfo` statement of the same
/// candidates (`rows[k]` and `images[k]` being the same candidate): each
/// candidate with an image has an entry named `images/` followed by the
/// `ImageFile` value of its tuple, and every other entry past the SQL file and
/// the `images/` directory is named so after one of those candidates.
pub proof fn lemma_export_images_match_candidateinfo(
    id: EntityId,
    name: Seq<char>,
    timestamp: int,
    images: Seq<CandidateImage>,
    rows: Seq<CandidateInfoRow>,
)
    requires
        rows.len() == images.len(),
        forall|k: int| 0 <= k < rows.len() ==> #[trigger] rows[k].canon_id@ == images[k].canon_id@ && rows[k].image_file@ == images[k].image_file@,
    ensures
        forall|k: int| 0 <= k < rows.len() && #[trigger] rows[k].image_file@.len() > 0 ==> export_entry_names(
            id,
            name,
            timestamp,
            images,
        ).contains("images/"@ + image_export_name(rows[k].canon_id@, rows[k].image_file@)),
        forall|j: int|
            2 <= j < export_entry_names(id, name, timestamp, images).len() ==> names_an_image_of(
                rows,
                #[trigger] export_entry_names(id, name, timestamp, images)[j],
            ),
{
    lemma_image_entry_names_members(images);
    let all = export_entry_names(id, name, timestamp, images);
    let imgs = image_entry_names(images);
    assert forall|k: int| 0 <= k < rows.len() && #[trigger] rows[k].image_file@.len() > 0 implies all.contains(
        "images/"@ + image_export_name(rows[k].canon_id@, rows[k].image_file@),
    ) by {
        assert(rows[k].canon_id@ == images[k].canon_id@);
        let e = image_entry_name(images[k].canon_id@, images[k].image_file@);
        assert(imgs.contains(e));
        let j = choose|j: int| 0 <= j < imgs.len() && imgs[j] == e;
        assert(all[j + 2] == e);
    }
    assert forall|j: int| 2 <= j < all.len() implies names_an_image_of(rows, #[trigger] all[j]) by {
        assert(all[j] == imgs[j - 2]);
        let i = choose|i: int|
            0 <= i < images.len() && images[i].image_file@.len() > 0 && #[trigger] imgs[j - 2]
                == image_entry_name(images[i].canon_id@, images[i].image_file@);
        assert(rows[i].canon_id@ == images[i].canon_id@);
        assert(rows[i].image_file@.len() > 0);
        assert(all[j] == "images/"@ + image_export_name(rows[i].canon_id@, rows[i].image_file@));
    }
}

/// A candidate without an image gets no image entry in an export, provided the
/// candidates' canonical identifiers differ: no image entry is named after it,
/// whatever the name of its image file would be.
pub proof fn lemma_export_skips_candidates_without_image(images: Seq<CandidateImage>)
    requires
        forall|i: int, j: int| 0 <= i < j < images.len() ==> #[trigger] images[i].canon_id@ != #[trigger] images[j].canon_id@,
    ensures
        forall|k: int, f: Seq<char>|
            0 <= k < images.len() && images[k].image_file@.len() == 0 ==> !image_entry_names(images).contains(
                #[trigger] image_entry_name(images[k].canon_id@, f),
            ),
{
    reveal_strlit("images/");
    lemma_image_entry_names_members(images);
    let imgs = image_entry_names(images);
    assert forall|k: int, f: Seq<char>|
        0 <= k < images.len() && images[k].image_file@.len() == 0 implies !imgs.contains(
            #[trigger] image_entry_name(images[k].canon_id@, f),
        ) by {
        let e = image_entry_name(images[k].canon_id@, f);
        if imgs.contains(e) {
            let j = choose|j: int| 0 <= j < imgs.len() && imgs[j] == e;
            let i = choose|i: int|
                0 <= i < images.len() && images[i].image_file@.len() > 0 && #[trigger] imgs[j]
                    == image_entry_name(images[i].canon_id@, images[i].image_file@);
            let other = image_entry_name(images[i].canon_id@, images[i].image_file@);
            assert(image_export_name(images[i].canon_id@, images[i].image_file@) =~= other.skip(7));
            assert(image_export_name(images[k].canon_id@, f) =~= e.skip(7));
            lemma_image_export_name_injective(images[i].canon_id@, images[i].image_file@, images[k].canon_id@, f);
            assert(i != k);
            if i < k {
                assert(images[i].canon_id@ != images[k].canon_id@);
            } else {
                assert(images[k].canon_id@ != images[i].canon_id@);
            }
        }
    }
}

/// The error an export reports when writing its archive failed with `message`.
pub open spec fn is_export_error(e: Error) -> bool {
    e matches Error::InternalServerError(_, source) && source@ == "DbProject::export"@
}

fn export_error(message: String) -> (e: Error)
    ensures
        is_export_error(e),
{
    Error::InternalServerError(message, String::from_str("DbProject::export"))
}

/// The decision on `action` for a user who owns the project (`is_owner`) or is
/// one of its members (`is_member`): creating and updating are for owners and
/// members, deleting is for owners, reading is for everyone.
pub open spec fn project_permits(is_owner: bool, is_member: bool, action: ActionType) -> bool {
    match action {
        ActionType::Create | ActionType::Update => is_owner || is_member,
        ActionType::Delete => is_owner,
        _ => true,
    }
}

/// The message of a refusal on `action` (which `project_permits` refused).
pub open spec fn project_refusal(action: ActionType) -> Seq<char> {
    match action {
        ActionType::Delete => "User is not authorized to delete project"@,
        _ => "User is not authorized to create/update project"@,
    }
}

/// Whoever may delete a project may also create and update it; reading is
/// permitted to everyone; creating and updating follow the rule for elections,
/// questions and candidates (owners and members only).
pub proof fn lemma_project_permissions(is_owner: bool, is_member: bool)
    ensures
        project_permits(is_owner, is_member, ActionType::Delete) ==> project_permits(
            is_owner,
            is_member,
            ActionType::Update,
        ) && project_permits(is_owner, is_member, ActionType::Create),
        project_permits(is_owner, is_member, ActionType::ReadIdOnly),
        project_permits(is_owner, is_member, ActionType::ReadCompact),
        project_permits(is_owner, is_member, ActionType::ReadDefault),
        project_permits(is_owner, is_member, ActionType::ReadDetailed),
        project_permits(is_owner, is_member, ActionType::Update) == (is_owner || is_member),
        project_permits(is_owner, is_member, ActionType::Create) == (is_owner || is_member),
{
}

impl DbProject {
    /// The statements of a project's export, joined as `canon_inserts` says.
    pub fn export_canon_inserts(
        electionmaster: &str,
        questionlogic: &str,
        choicemapping: &str,
        candidateinfo: &str,
    ) -> (res: String)
        ensures
            res@ == canon_inserts(electionmaster@, questionlogic@, choicemapping@, candidateinfo@),
    {
        let mut result = String::new();
        result.append(electionmaster);
        result.append("\n\n\n");
        result.append(questionlogic);
        result.append("\n\n\n");
        result.append(choicemapping);
        result.append("\n\n\n");
        result.append(candidateinfo);
        proof {
            assert(Seq::<char>::empty() + electionmaster@ =~= electionmaster@);
        }
        result
    }

    /// The name of the SQL file in this project's export made at `timestamp`.
    pub fn export_sql_file_name(&self, timestamp: i64) -> (s: String)
        ensures
            s@ == sql_file_name(self.id, self.name@, timestamp as int),
    {
        let mut s = uuid_hyphenated_string(self.id);
        s.append("-");
        s.append(self.name.as_str());
        s.append("-");
        let t = int_to_decimal(timestamp);
        s.append(t.as_str());
        s.append(".sql");
        s
    }

    /// Whether a candidate whose image is stored under `image_file` has an
    /// image to export (an empty name means it has none).
    pub fn exports_image(image_file: &str) -> (b: bool)
        ensures
            b == (image_file@.len() > 0),
    {
        !image_file.is_empty()
    }

    /// The archive entry of a candidate's image.
    pub fn image_entry_name(canon_id: &str, image_file: &str) -> (s: String)
        ensures
            s@ == image_entry_name(canon_id@, image_file@),
    {
        let mut s = String::from_str("images/");
        let name = image_export_file_name(canon_id, image_file);
        s.append(name.as_str());
        s
    }

    /// Writes this project's export made at `timestamp` (seconds since the Unix
    /// epoch) as a zip archive of stored files: the SQL file holding the UTF-8
    /// bytes of `sql`, the `images/` directory, and the bytes of every candidate
    /// image (candidates without one are skipped), as `export_entry_names` and
    /// `export_entry_data` list them. It succeeds whenever the candidates with
    /// images have distinct canonical identifiers and every file fits a stored
    /// file; a failure of the archive is reported as `InternalServerError`.
    #[verifier::rlimit(50)]
    #[verifier::spinoff_prover]
    pub fn export(&self, timestamp: i64, sql: &str, images: &Vec<CandidateImage>) -> (res: Result<Vec<u8>, Error>)
        requires
            export_names_fit(self.id, self.name@, timestamp as int, images@),
        ensures
            res matches Ok(bytes) ==> exists|archive: ExportArchive|
                #[trigger] archive_bytes(archive) == bytes@
                    && archive_entry_names(archive) == export_entry_names(self.id, self.name@, timestamp as int, images@)
                    && archive_entry_data(archive) == export_entry_data(encode_utf8(sql@), images@),
            res matches Err(e) ==> is_export_error(e),
            image_owners_distinct(images@) && export_sizes_fit(sql@, images@) ==> res is Ok,
    {
        let ghost fits = image_owners_distinct(images@) && export_sizes_fit(sql@, images@);
        let ghost full = export_entry_names(self.id, self.name@, timestamp as int, images@);
        let ghost head = seq![sql_file_name(self.id, self.name@, timestamp as int), "images/"@];
        proof {
            reveal_strlit("images/");
            if image_owners_distinct(images@) {
                lemma_export_entries_distinct(self.id, self.name@, timestamp as int, images@);
            }
            assert(full[0] == head[0] && full[1] == head[1]);
        }
        let mut zip = ExportArchive::new();
        let file_name = self.export_sql_file_name(timestamp);
        let started = zip.start_stored_file(file_name.as_str());
        if let Err(m) = started {
            return Err(export_error(m));
        }
        assert(archive_entry_data(zip) =~= seq![Seq::<u8>::empty()]);
        let wrote = zip.write(sql);
        if let Err(m) = wrote {
            return Err(export_error(m));
        }
        let ghost sql_data = encode_utf8(sql@);
        assert(archive_entry_data(zip) =~= seq![sql_data]);
        assert(seq![head[0]].contains(head[1]) ==> head[0] == head[1]);
        if let Err(m) = zip.add_directory("images/") {
            return Err(export_error(m));
        }
        assert(archive_entry_names(zip) == head);
        assert(archive_entry_data(zip) =~= seq![sql_data, Seq::<u8>::empty()]);
        let n = images.len();
        for i in 0..n
            invariant
                n == images@.len(),
                export_names_fit(self.id, self.name@, timestamp as int, images@),
                full == export_entry_names(self.id, self.name@, timestamp as int, images@),
                head == seq![full[0], full[1]],
                fits == (image_owners_distinct(images@) && export_sizes_fit(sql@, images@)),
                fits ==> full.no_duplicates() && sql_data.len() <= stored_file_limit(),
                sql_data == encode_utf8(sql@),
                archive_entry_names(zip) == head + image_entry_names(images@.take(i as int)),
                archive_entry_data(zip) == seq![sql_data, Seq::<u8>::empty()] + image_entry_data(images@.take(i as int)),
                archive_file_open(zip) == (image_entry_names(images@.take(i as int)).len() > 0),
                fits ==> archive_sizes_fit(zip),
        {
            let img = &images[i];
            proof {
                assert(images@.take(i + 1).drop_last() =~= images@.take(i as int));
                assert(images@.take(i + 1).last() == images@[i as int]);
            }
            if Self::exports_image(img.image_file.as_str()) {
                let entry = Self::image_entry_name(img.canon_id.as_str(), img.image_file.as_str());
                let ghost before = image_entry_names(images@.take(i as int));
                let ghost m = before.len() as int;
                proof {
                    lemma_image_entry_names_prefix(images@, i as int, n as int);
                    lemma_image_entry_names_prefix(images@, i as int + 1, n as int);
                    assert(image_entry_names(images@.take(i + 1)) == before.push(entry@));
                    assert(images@.take(n as int) =~= images@);
                    assert(image_entry_names(images@.take(i + 1))[m] == entry@);
                    assert(image_entry_names(images@)[m] == entry@);
                    assert(full[2 + m] == entry@);
                    if fits && archive_entry_names(zip).contains(entry@) {
                        let k = choose|k: int| 0 <= k < archive_entry_names(zip).len() && archive_entry_names(zip)[k] == entry@;
                        if k >= 2 {
                            assert(archive_entry_names(zip)[k] == before[k - 2]);
                        }
                        assert(full[k] == full[2 + m]);
                    }
                }
                let started = zip.start_stored_file(entry.as_str());
                if let Err(m) = started {
                    return Err(export_error(m));
                }
                assert(archive_entry_data(zip).last() == Seq::<u8>::empty());
                if let Err(m) = zip.write_all(img.bytes.as_slice()) {
                    return Err(export_error(m));
                }
                assert(archive_entry_names(zip) =~= head + image_entry_names(images@.take(i + 1)));
                assert(archive_entry_data(zip) =~= seq![sql_data, Seq::<u8>::empty()] + image_entry_data(images@.take(i + 1)));
            } else {
                assert(archive_entry_names(zip) =~= head + image_entry_names(images@.take(i + 1)));
                assert(archive_entry_data(zip) =~= seq![sql_data, Seq::<u8>::empty()] + image_entry_data(images@.take(i + 1)));
            }
        }
        proof {
            assert(images@.take(n as int) =~= images@);
        }
        assert(archive_entry_names(zip) == export_entry_names(self.id, self.name@, timestamp as int, images@));
        assert(archive_entry_data(zip) == export_entry_data(sql_data, images@));
        let ghost finished = zip;
        match zip.finish() {
            Ok(bytes) => {
                assert(archive_bytes(finished) == bytes@);
                Ok(bytes)
            },
            Err(m) => Err(export_error(m)),
        }
    }

    /// Decides whether a user may perform `action` on a project, given the
    /// counts that the lookups of the user among the project's owners and among
    /// its members returned.
    pub fn authorize(owner_count: Option<i64>, member_count: Option<i64>, action: ActionType) -> (res: Result<(), Error>)
        ensures
            res is Ok <==> project_permits(found_any(owner_count), found_any(member_count), action),
            res matches Err(e) ==> e matches Error::InvalidPermission(source, msg) && source@
                == "Project Authorizer"@ && msg@ == project_refusal(action),
    {
        let is_owner = count_found_any(owner_count);
        let is_member = count_found_any(member_count);
        match action {
            ActionType::Create | ActionType::Update => {
                if is_owner || is_member {
                    Ok(())
                } else {
                    Err(
                        Error::InvalidPermission(
                            String::from_str("Project Authorizer"),
                            String::from_str("User is not authorized to create/update project"),
                        ),
                    )
                }
            },
            ActionType::Delete => {
                if is_owner {
                    Ok(())
                } else {
                    Err(
                        Error::InvalidPermission(
                            String::from_str("Project Authorizer"),
                            String::from_str("User is not authorized to delete project"),
                        ),
                    )
                }
            },
            _ => Ok(()),
        }
    }
}

} // verus!
