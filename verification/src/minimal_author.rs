use vstd::prelude::*;
use vstd::string::StringExecFns;

use crate::numbers::{
    decimal, law_decimal_no_leading_zero, lemma_decimal_digits, parsed_u64, u64_to_decimal,
};

verus! {

/// Why an update of an author's minimal data was refused.
pub enum UpdateMinimalAuthorContentFailure {
    /// The database refused the update.
    DatabaseError { reason: String },
    /// The submitted data could not be read or is not valid.
    ValidationError { reason: String },
    /// The request carries no valid authentication.
    Unauthorized { reason: String },
    /// The author is blocked and may not edit.
    EditingForbidden,
}

/// What the handler reads of the authenticated author.
pub struct AuthorIdentity {
    pub id: u64,
    pub blocked: u8,
}

/// The update to store: whose minimal data, and the slug to store with it.
pub struct MinimalAuthorUpdate {
    pub author_id: u64,
    pub slug: String,
}

/// The slug that is stored for a submitted slug: the submitted slug, `#`, and the
/// author's id in decimal, so that slugs of different authors never collide.
pub open spec fn stored_slug(slug: Seq<char>, id: u64) -> Seq<char> {
    slug + "#"@ + decimal(id as nat)
}

/// The outcome that the checks give, in their order: authentication, then the
/// author's blocked flag, then reading the submitted data, then validating it.
pub open spec fn is_update_outcome(
    auth: Result<AuthorIdentity, String>,
    data: Result<String, String>,
    validation: Result<(), String>,
    res: Result<MinimalAuthorUpdate, UpdateMinimalAuthorContentFailure>,
) -> bool {
    match auth {
        Err(e) => res matches Err(UpdateMinimalAuthorContentFailure::Unauthorized { reason })
            && reason@ == e@,
        Ok(author) => if author.blocked == 1 {
            res matches Err(UpdateMinimalAuthorContentFailure::EditingForbidden)
        } else {
            match data {
                Err(e) => res matches Err(
                    UpdateMinimalAuthorContentFailure::ValidationError { reason },
                ) && reason@ == e@,
                Ok(slug) => match validation {
                    Err(e) => res matches Err(
                        UpdateMinimalAuthorContentFailure::ValidationError { reason },
                    ) && reason@ == e@,
                    Ok(_) => res matches Ok(update) && update.author_id == author.id
                        && update.slug@ == stored_slug(slug@, author.id),
                },
            }
        },
    }
}

/// Decides an update of an author's minimal data. `auth` is the authenticated
/// author or why authentication failed; `data` is the submitted slug or why the
/// submission could not be read; `validation` is the outcome of validating the
/// submission, consulted only when it could be read. A blocked author (flag 1)
/// may not edit. On success the slug to store is the submitted one followed by
/// `#` and the author's id.
pub fn prepare_minimal_author_update(
    auth: Result<AuthorIdentity, String>,
    data: Result<String, String>,
    validation: Result<(), String>,
) -> (res: Result<MinimalAuthorUpdate, UpdateMinimalAuthorContentFailure>)
    ensures
        is_update_outcome(auth, data, validation, res),
{
    let author = match auth {
        Ok(author) => author,
        Err(e) => {
            return Err(UpdateMinimalAuthorContentFailure::Unauthorized { reason: e });
        },
    };
    if author.blocked == 1 {
        return Err(UpdateMinimalAuthorContentFailure::EditingForbidden);
    }
    let slug = match data {
        Ok(slug) => slug,
        Err(e) => {
            return Err(UpdateMinimalAuthorContentFailure::ValidationError { reason: e });
        },
    };
    match validation {
        Ok(_) => {},
        Err(e) => {
            return Err(UpdateMinimalAuthorContentFailure::ValidationError { reason: e });
        },
    }
    let mut stored = slug;
    stored.append("#");
    let id = u64_to_decimal(author.id);
    stored.append(id.as_str());
    Ok(MinimalAuthorUpdate { author_id: author.id, slug: stored })
}

/// The checks that come before the submitted data is looked at: an
/// unauthenticated request is `Unauthorized` with the reason, a blocked author
/// (flag 1) is `EditingForbidden`, any other author may go on.
pub fn authorize_minimal_author_update(auth: Result<AuthorIdentity, String>) -> (res: Result<
    AuthorIdentity,
    UpdateMinimalAuthorContentFailure,
>)
    ensures
        match auth {
            Err(e) => res matches Err(UpdateMinimalAuthorContentFailure::Unauthorized { reason })
                && reason@ == e@,
            Ok(author) => if author.blocked == 1 {
                res matches Err(UpdateMinimalAuthorContentFailure::EditingForbidden)
            } else {
                res == Ok::<AuthorIdentity, UpdateMinimalAuthorContentFailure>(author)
            },
        },
{
    match auth {
        Err(e) => Err(UpdateMinimalAuthorContentFailure::Unauthorized { reason: e }),
        Ok(author) => if author.blocked == 1 {
            Err(UpdateMinimalAuthorContentFailure::EditingForbidden)
        } else {
            Ok(author)
        },
    }
}

/// Law: deciding the access first and the update afterwards, with the data read
/// and validated only once access is granted, ends as deciding everything at
/// once: a refusal of access is the refusal of the update, and a granted author
/// leads to the outcome of the update for that author.
pub proof fn law_access_then_update(
    auth: Result<AuthorIdentity, String>,
    access: Result<AuthorIdentity, UpdateMinimalAuthorContentFailure>,
    data: Result<String, String>,
    validation: Result<(), String>,
    res: Result<MinimalAuthorUpdate, UpdateMinimalAuthorContentFailure>,
)
    requires
        match auth {
            Err(e) => access matches Err(UpdateMinimalAuthorContentFailure::Unauthorized { reason })
                && reason@ == e@,
            Ok(author) => if author.blocked == 1 {
                access matches Err(UpdateMinimalAuthorContentFailure::EditingForbidden)
            } else {
                access == Ok::<AuthorIdentity, UpdateMinimalAuthorContentFailure>(author)
            },
        },
        access matches Ok(author) ==> is_update_outcome(Ok(author), data, validation, res),
    ensures
        access matches Err(f) ==> is_update_outcome(
            auth,
            data,
            validation,
            Err::<MinimalAuthorUpdate, UpdateMinimalAuthorContentFailure>(f),
        ),
        access is Ok ==> is_update_outcome(auth, data, validation, res),
{
}

/// Maps the outcome of storing the update: a database error becomes
/// `DatabaseError` with its reason.
pub fn finish_minimal_author_update(stored: Result<(), String>) -> (res: Result<
    (),
    UpdateMinimalAuthorContentFailure,
>)
    ensures
        match stored {
            Ok(_) => res is Ok,
            Err(e) => res matches Err(UpdateMinimalAuthorContentFailure::DatabaseError { reason })
                && reason@ == e@,
        },
{
    match stored {
        Ok(_) => Ok(()),
        Err(e) => Err(UpdateMinimalAuthorContentFailure::DatabaseError { reason: e }),
    }
}

/// Law: a blocked author is refused before anything submitted is looked at.
pub proof fn law_blocked_author_never_updates(
    author: AuthorIdentity,
    data: Result<String, String>,
    validation: Result<(), String>,
    res: Result<MinimalAuthorUpdate, UpdateMinimalAuthorContentFailure>,
)
    requires
        author.blocked == 1,
        is_update_outcome(Ok(author), data, validation, res),
    ensures
        res matches Err(UpdateMinimalAuthorContentFailure::EditingForbidden),
{
}

/// Law: the stored slug identifies its author: it begins with the submitted slug
/// unchanged, its last `#` stands right after it, and what follows that `#` reads
/// back as the author's id, written without a leading zero.
pub proof fn law_stored_slug_ends_with_id(slug: Seq<char>, id: u64)
    ensures
        stored_slug(slug, id).subrange(0, slug.len() as int) == slug,
        stored_slug(slug, id).len() > slug.len() + 1,
        stored_slug(slug, id)[slug.len() as int + 1] == '0' ==> id == 0,
        stored_slug(slug, id)[slug.len() as int] == '#',
        forall|k: int|
            slug.len() < k < stored_slug(slug, id).len() ==> #[trigger] stored_slug(slug, id)[k]
                != '#',
        parsed_u64(
            stored_slug(slug, id).subrange(slug.len() as int + 1, stored_slug(slug, id).len() as int),
        ) == Some(id),
{
    reveal_strlit("#");
    let d = decimal(id as nat);
    let s = stored_slug(slug, id);
    lemma_decimal_digits(id as nat);
    law_decimal_no_leading_zero(id as nat);
    assert(s.subrange(0, slug.len() as int) =~= slug);
    assert(s[slug.len() as int + 1] == d[0]);
    assert(s.subrange(slug.len() as int + 1, s.len() as int) =~= d);
    assert forall|k: int| slug.len() < k < s.len() implies #[trigger] s[k] != '#' by {
        assert(s[k] == d[k - slug.len() - 1]);
    }
}

/// Law: an unblocked author whose submission was read and validated gets an
/// update of their own minimal data, whose slug is the submitted slug unchanged,
/// then `#`, then the author's id in decimal without a leading zero, with no `#`
/// after the one that ends the submitted slug.
pub proof fn law_update_stores_slug_and_id(
    author: AuthorIdentity,
    slug: String,
    validated: (),
    res: Result<MinimalAuthorUpdate, UpdateMinimalAuthorContentFailure>,
)
    requires
        author.blocked != 1,
        is_update_outcome(
            Ok(author),
            Ok::<String, String>(slug),
            Ok::<(), String>(validated),
            res,
        ),
    ensures
        res is Ok,
        res matches Ok(update) ==> {
            let n = slug@.len() as int;
            let stored = update.slug@;
            &&& update.author_id == author.id
            &&& stored.subrange(0, n) == slug@
            &&& stored[n] == '#'
            &&& forall|k: int| n < k < stored.len() ==> #[trigger] stored[k] != '#'
            &&& parsed_u64(stored.subrange(n + 1, stored.len() as int)) == Some(author.id)
            &&& stored.len() > n + 1
            &&& (stored[n + 1] == '0' ==> author.id == 0)
        },
{
    law_stored_slug_ends_with_id(slug@, author.id);
}

} // verus!
