//! The record-keeping program: one container record per owner, and under it
//! child records numbered in the order of their creation.
//!
//! Each instruction first evaluates its requirements on the accounts it was
//! given, then validates its input, and only then changes the records. An
//! instruction that ends in an error leaves every record as it was.

use crate::accounts::Account;
use crate::accounts::Program;
use crate::accounts::Signer;
use crate::address::Address;
use crate::address::Derivation;
use crate::constraints::check_all;
use crate::constraints::first_violation;
use crate::constraints::Requirement;
use crate::error::ConstraintError;
use crate::error::Error;
use crate::error::ErrorCode;
use crate::runtime::clock_unix_timestamp;
use vstd::prelude::*;
use vstd::string::StrSliceExecFns;

verus! {

/// The most characters a title may have.
pub const MAX_TITLE_LEN: usize = 100;

/// The most characters a body may have.
pub const MAX_CONTENT_LEN: usize = 1000;

/// The container record of an owner.
#[derive(Clone, Copy, Debug, PartialEq, Eq)]
pub struct Blog {
    /// The owner of the container.
    pub authority: Address,
    /// The number of children created under the container so far, which is
    /// also the sequence number of the next one.
    pub post_count: u64,
}

/// A child record.
#[derive(Clone, Debug, PartialEq, Eq)]
pub struct BlogPost {
    /// The identity that created the record and alone may change it.
    pub author: Address,
    /// The title, of 1 to 100 characters.
    pub title: String,
    /// The body, of 1 to 1000 characters.
    pub content: String,
    /// The sequence number of the record under its container.
    pub post_id: u64,
    /// When the record was created or last changed, in Unix time.
    pub timestamp: i64,
}

/// The error of a title and a body that cannot be stored, `None` where both
/// can: a title of more than 100 characters, a body of more than 1000
/// characters, an empty title, an empty body, looked for in this order.
pub open spec fn field_error(title: Seq<char>, content: Seq<char>) -> Option<ErrorCode> {
    if title.len() > MAX_TITLE_LEN {
        Some(ErrorCode::TitleTooLong)
    } else if content.len() > MAX_CONTENT_LEN {
        Some(ErrorCode::ContentTooLong)
    } else if title.len() == 0 {
        Some(ErrorCode::TitleEmpty)
    } else if content.len() == 0 {
        Some(ErrorCode::ContentEmpty)
    } else {
        None
    }
}

impl BlogPost {
    /// Whether the record can be stored: its title has 1 to 100 characters
    /// and its body 1 to 1000. Every record that an instruction writes is
    /// well formed.
    pub open spec fn well_formed(self) -> bool {
        field_error(self.title@, self.content@) is None
    }
}

/// Validates the title and the body of a child record.
pub fn validate_fields(title: &str, content: &str) -> (r: Result<(), ErrorCode>)
    ensures
        r == match field_error(title@, content@) {
            Some(code) => Err::<(), ErrorCode>(code),
            None => Ok(()),
        },
{
    if title.unicode_len() > MAX_TITLE_LEN {
        Err(ErrorCode::TitleTooLong)
    } else if content.unicode_len() > MAX_CONTENT_LEN {
        Err(ErrorCode::ContentTooLong)
    } else if title.is_empty() {
        Err(ErrorCode::TitleEmpty)
    } else if content.is_empty() {
        Err(ErrorCode::ContentEmpty)
    } else {
        Ok(())
    }
}

/// What it means that an instruction was carried out: where its outcome is a
/// new state, the call succeeded and left that state; where it is an error,
/// the call returned that error and left the state as it was.
pub open spec fn carried_out<C>(
    outcome: Result<C, Error>,
    before: C,
    after: C,
    r: Result<(), Error>,
) -> bool {
    match outcome {
        Ok(state) => r is Ok && after == state,
        Err(error) => r == Err::<(), Error>(error) && after == before,
    }
}

/// The accounts of `initialize_blog`.
#[derive(Clone, Debug, PartialEq, Eq)]
pub struct InitializeBlog {
    /// The slot of the container to create.
    pub blog: Account<Blog>,
    /// The owner, who signs and pays.
    pub authority: Signer,
    /// The system program, which creates the account of the container.
    pub system_program: Program,
}

impl InitializeBlog {
    /// In this order: the owner signs; the system program is supplied; the
    /// slot is at the address derived for the owner's container; no record
    /// is there yet; the owner is writable.
    pub open spec fn requirements(self) -> Seq<Requirement> {
        seq![
            Requirement::Signer { account: self.authority.key, is_signer: self.authority.is_signer },
            Requirement::SystemProgram { supplied: self.system_program.key, executable: self.system_program.executable },
            Requirement::AddressMatch { supplied: self.blog.key, derivation: Derivation::Container { owner: self.authority.key } },
            Requirement::Vacant { account: self.blog.key, present: self.blog.data is Some },
            Requirement::Writable { account: self.authority.key, is_writable: self.authority.is_writable },
        ]
    }

    /// The requirements of the instruction on these accounts, in the order
    /// in which they are evaluated.
    pub fn collect_requirements(&self) -> (list: Vec<Requirement>)
        ensures
            list@ == self.requirements(),
    {
        let mut list: Vec<Requirement> = Vec::new();
        list.push(Requirement::Signer { account: self.authority.key, is_signer: self.authority.is_signer });
        list.push(Requirement::SystemProgram { supplied: self.system_program.key, executable: self.system_program.executable });
        list.push(Requirement::AddressMatch { supplied: self.blog.key, derivation: Derivation::Container { owner: self.authority.key } });
        list.push(Requirement::Vacant { account: self.blog.key, present: self.blog.data.is_some() });
        list.push(Requirement::Writable { account: self.authority.key, is_writable: self.authority.is_writable });
        assert(list@ =~= self.requirements());
        list
    }

    /// The accounts after the instruction has gone through: with a new
    /// container of the owner that counts no children.
    pub open spec fn initialized(self) -> InitializeBlog {
        InitializeBlog {
            blog: Account {
                data: Some(Blog { authority: self.authority.key, post_count: 0 }),
                ..self.blog
            },
            ..self
        }
    }

    /// The outcome of the instruction: the error of the first requirement
    /// that does not hold, else the accounts with the new container.
    pub open spec fn outcome(self) -> Result<InitializeBlog, Error> {
        match first_violation(self.requirements()) {
            Some(error) => Err(error),
            None => Ok(self.initialized()),
        }
    }
}

/// Creates the container record of the signing owner.
pub fn initialize_blog(ctx: &mut InitializeBlog) -> (r: Result<(), Error>)
    ensures
        carried_out(old(ctx).outcome(), *old(ctx), *final(ctx), r),
{
    let requirements = ctx.collect_requirements();
    match check_all(&requirements) {
        Ok(()) => {},
        Err(error) => {
            return Err(error);
        },
    }
    ctx.blog.data = Some(Blog { authority: ctx.authority.key, post_count: 0 });
    Ok(())
}

/// The accounts of `create_post`.
#[derive(Clone, Debug, PartialEq, Eq)]
pub struct CreatePost {
    /// The container under which the child is created.
    pub blog: Account<Blog>,
    /// The slot of the child to create.
    pub post: Account<BlogPost>,
    /// The owner of the container, who signs, pays and becomes the author.
    pub authority: Signer,
    /// The system program, which creates the account of the child.
    pub system_program: Program,
}

impl CreatePost {
    /// In this order: the container exists; the owner signs; the system
    /// program is supplied; the slot is at the address derived for the
    /// container's next child; no record is there yet; the container is at
    /// the address derived for the owner's container, is writable, and names
    /// the owner; the owner is writable.
    pub open spec fn requirements(self) -> Seq<Requirement> {
        let first = seq![
            Requirement::Initialized { account: self.blog.key, present: self.blog.data is Some },
        ];
        match self.blog.data {
            None => first,
            Some(blog) => first + seq![
                Requirement::Signer { account: self.authority.key, is_signer: self.authority.is_signer },
                Requirement::SystemProgram { supplied: self.system_program.key, executable: self.system_program.executable },
                Requirement::AddressMatch { supplied: self.post.key, derivation: Derivation::Child { container: self.blog.key, sequence_id: blog.post_count } },
                Requirement::Vacant { account: self.post.key, present: self.post.data is Some },
                Requirement::AddressMatch { supplied: self.blog.key, derivation: Derivation::Container { owner: self.authority.key } },
                Requirement::Writable { account: self.blog.key, is_writable: self.blog.is_writable },
                Requirement::FieldEquals { field: blog.authority, expected: self.authority.key, error: None },
                Requirement::Writable { account: self.authority.key, is_writable: self.authority.is_writable },
            ],
        }
    }

    /// The requirements of the instruction on these accounts, in the order
    /// in which they are evaluated.
    pub fn collect_requirements(&self) -> (list: Vec<Requirement>)
        ensures
            list@ == self.requirements(),
    {
        let mut list: Vec<Requirement> = Vec::new();
        list.push(Requirement::Initialized { account: self.blog.key, present: self.blog.data.is_some() });
        if let Some(blog) = self.blog.data {
            list.push(Requirement::Signer { account: self.authority.key, is_signer: self.authority.is_signer });
            list.push(Requirement::SystemProgram { supplied: self.system_program.key, executable: self.system_program.executable });
            list.push(Requirement::AddressMatch { supplied: self.post.key, derivation: Derivation::Child { container: self.blog.key, sequence_id: blog.post_count } });
            list.push(Requirement::Vacant { account: self.post.key, present: self.post.data.is_some() });
            list.push(Requirement::AddressMatch { supplied: self.blog.key, derivation: Derivation::Container { owner: self.authority.key } });
            list.push(Requirement::Writable { account: self.blog.key, is_writable: self.blog.is_writable });
            list.push(Requirement::FieldEquals { field: blog.authority, expected: self.authority.key, error: None });
            list.push(Requirement::Writable { account: self.authority.key, is_writable: self.authority.is_writable });
        }
        assert(list@ =~= self.requirements());
        list
    }

    /// The accounts after a child with this title and body has been created
    /// at the time `timestamp`: the child is numbered by the container's
    /// count and names the signer as its author, and the container counts
    /// one more.
    pub open spec fn created(self, title: String, content: String, timestamp: i64) -> CreatePost {
        let blog = self.blog.data->Some_0;
        CreatePost {
            blog: Account {
                data: Some(
                    Blog { authority: blog.authority, post_count: (blog.post_count + 1) as u64 },
                ),
                ..self.blog
            },
            post: Account {
                data: Some(
                    BlogPost {
                        author: self.authority.key,
                        title,
                        content,
                        post_id: blog.post_count,
                        timestamp,
                    },
                ),
                ..self.post
            },
            ..self
        }
    }

    /// The outcome of the instruction when the clock answers `now`. In this
    /// order: the error of the first requirement that does not hold; the
    /// error of the title and the body; `ClockUnavailable` where the clock
    /// gave no time; `MathOverflow` where the container has counted
    /// `u64::MAX` children. Else the accounts with the new child.
    pub open spec fn outcome(self, title: String, content: String, now: Option<i64>) -> Result<
        CreatePost,
        Error,
    > {
        if let Some(error) = first_violation(self.requirements()) {
            Err(error)
        } else if let Some(code) = field_error(title@, content@) {
            Err(Error::Program(code))
        } else if now is None {
            Err(Error::ClockUnavailable)
        } else if self.blog.data->Some_0.post_count == u64::MAX {
            Err(Error::Program(ErrorCode::MathOverflow))
        } else {
            Ok(self.created(title, content, now->Some_0))
        }
    }
}

/// Creates a child record under the signer's container, stamped with the
/// time `now` that the clock gave, or fails where it gave none.
pub fn create_post_at(ctx: &mut CreatePost, title: String, content: String, now: Option<i64>) -> (r:
    Result<(), Error>)
    ensures
        carried_out(old(ctx).outcome(title, content, now), *old(ctx), *final(ctx), r),
{
    let requirements = ctx.collect_requirements();
    match check_all(&requirements) {
        Ok(()) => {},
        Err(error) => {
            return Err(error);
        },
    }
    let blog = match ctx.blog.data {
        Some(blog) => blog,
        None => {
            assert(!requirements@[0].holds());
            return Err(Error::Constraint(ConstraintError::NotInitialized));
        },
    };
    match validate_fields(title.as_str(), content.as_str()) {
        Ok(()) => {},
        Err(code) => {
            return Err(Error::Program(code));
        },
    }
    let timestamp = match now {
        Some(timestamp) => timestamp,
        None => {
            return Err(Error::ClockUnavailable);
        },
    };
    let post_count = match blog.post_count.checked_add(1) {
        Some(post_count) => post_count,
        None => {
            return Err(Error::Program(ErrorCode::MathOverflow));
        },
    };
    ctx.post.data = Some(
        BlogPost {
            author: ctx.authority.key,
            title,
            content,
            post_id: blog.post_count,
            timestamp,
        },
    );
    ctx.blog.data = Some(Blog { authority: blog.authority, post_count });
    Ok(())
}

/// Creates a child record under the signer's container, stamped with the
/// time of the runtime's clock. Whatever the clock answers, the call is
/// carried out as `create_post_at` carries it out for that answer.
pub fn create_post(ctx: &mut CreatePost, title: String, content: String) -> (r: Result<(), Error>)
    ensures
        exists|now: Option<i64>|
            carried_out(
                #[trigger] old(ctx).outcome(title, content, now),
                *old(ctx),
                *final(ctx),
                r,
            ),
{
    let now = match clock_unix_timestamp() {
        Ok(timestamp) => Some(timestamp),
        Err(_) => None,
    };
    create_post_at(ctx, title, content, now)
}

/// The requirements that `update_post` and `delete_post` share, on the
/// child, its container and the signer, with the error that names a signer
/// who is not the author. In this order: the child exists; the signer
/// signs; the author of the child is the signer; the container exists; the
/// child is at the address derived for its sequence number under the
/// container, and is writable; the container is at the address derived for
/// the signer's container; the signer is writable.
pub open spec fn author_requirements(
    post: Account<BlogPost>,
    blog: Account<Blog>,
    author: Signer,
    unauthorized: ErrorCode,
) -> Seq<Requirement> {
    let first = seq![
        Requirement::Initialized { account: post.key, present: post.data is Some },
    ];
    match post.data {
        None => first,
        Some(record) => first + seq![
            Requirement::Signer { account: author.key, is_signer: author.is_signer },
            Requirement::FieldEquals { field: record.author, expected: author.key, error: Some(unauthorized) },
            Requirement::Initialized { account: blog.key, present: blog.data is Some },
            Requirement::AddressMatch { supplied: post.key, derivation: Derivation::Child { container: blog.key, sequence_id: record.post_id } },
            Requirement::Writable { account: post.key, is_writable: post.is_writable },
            Requirement::AddressMatch { supplied: blog.key, derivation: Derivation::Container { owner: author.key } },
            Requirement::Writable { account: author.key, is_writable: author.is_writable },
        ],
    }
}

/// The requirements that `update_post` and `delete_post` share, in the
/// order in which they are evaluated.
fn collect_author_requirements(
    post: &Account<BlogPost>,
    blog: &Account<Blog>,
    author: &Signer,
    unauthorized: ErrorCode,
) -> (list: Vec<Requirement>)
    ensures
        list@ == author_requirements(*post, *blog, *author, unauthorized),
{
    let mut list: Vec<Requirement> = Vec::new();
    list.push(Requirement::Initialized { account: post.key, present: post.data.is_some() });
    if let Some(record) = &post.data {
        list.push(Requirement::Signer { account: author.key, is_signer: author.is_signer });
        list.push(Requirement::FieldEquals { field: record.author, expected: author.key, error: Some(unauthorized) });
        list.push(Requirement::Initialized { account: blog.key, present: blog.data.is_some() });
        list.push(Requirement::AddressMatch { supplied: post.key, derivation: Derivation::Child { container: blog.key, sequence_id: record.post_id } });
        list.push(Requirement::Writable { account: post.key, is_writable: post.is_writable });
        list.push(Requirement::AddressMatch { supplied: blog.key, derivation: Derivation::Container { owner: author.key } });
        list.push(Requirement::Writable { account: author.key, is_writable: author.is_writable });
    }
    assert(list@ =~= author_requirements(*post, *blog, *author, unauthorized));
    list
}

/// The accounts of `update_post`.
#[derive(Clone, Debug, PartialEq, Eq)]
pub struct UpdatePost {
    /// The child to change.
    pub post: Account<BlogPost>,
    /// The container of the signer.
    pub blog: Account<Blog>,
    /// The author, who signs.
    pub author: Signer,
}

impl UpdatePost {
    /// The shared requirements, with `UnauthorizedUpdate` for a signer who
    /// is not the author.
    pub open spec fn requirements(self) -> Seq<Requirement> {
        author_requirements(self.post, self.blog, self.author, ErrorCode::UnauthorizedUpdate)
    }

    /// The requirements of the instruction on these accounts, in the order
    /// in which they are evaluated.
    pub fn collect_requirements(&self) -> (list: Vec<Requirement>)
        ensures
            list@ == self.requirements(),
    {
        collect_author_requirements(
            &self.post,
            &self.blog,
            &self.author,
            ErrorCode::UnauthorizedUpdate,
        )
    }

    /// The accounts after the child has been given this title and body at
    /// the time `timestamp`: its author and sequence number are as they
    /// were.
    pub open spec fn updated(self, title: String, content: String, timestamp: i64) -> UpdatePost {
        let record = self.post.data->Some_0;
        UpdatePost {
            post: Account {
                data: Some(
                    BlogPost {
                        author: record.author,
                        title,
                        content,
                        post_id: record.post_id,
                        timestamp,
                    },
                ),
                ..self.post
            },
            ..self
        }
    }

    /// The outcome of the instruction when the clock answers `now`. In this
    /// order: the error of the first requirement that does not hold; the
    /// error of the title and the body; `ClockUnavailable` where the clock
    /// gave no time. Else the accounts with the changed child.
    pub open spec fn outcome(self, title: String, content: String, now: Option<i64>) -> Result<
        UpdatePost,
        Error,
    > {
        if let Some(error) = first_violation(self.requirements()) {
            Err(error)
        } else if let Some(code) = field_error(title@, content@) {
            Err(Error::Program(code))
        } else if now is None {
            Err(Error::ClockUnavailable)
        } else {
            Ok(self.updated(title, content, now->Some_0))
        }
    }
}

/// Replaces the title and the body of a child record of the signer, and
/// stamps it with the time `now` that the clock gave, or fails where it gave
/// none.
pub fn update_post_at(ctx: &mut UpdatePost, title: String, content: String, now: Option<i64>) -> (r:
    Result<(), Error>)
    ensures
        carried_out(old(ctx).outcome(title, content, now), *old(ctx), *final(ctx), r),
{
    let requirements = ctx.collect_requirements();
    match check_all(&requirements) {
        Ok(()) => {},
        Err(error) => {
            return Err(error);
        },
    }
    let (author, post_id) = match &ctx.post.data {
        Some(record) => (record.author, record.post_id),
        None => {
            assert(!requirements@[0].holds());
            return Err(Error::Constraint(ConstraintError::NotInitialized));
        },
    };
    match validate_fields(title.as_str(), content.as_str()) {
        Ok(()) => {},
        Err(code) => {
            return Err(Error::Program(code));
        },
    }
    let timestamp = match now {
        Some(timestamp) => timestamp,
        None => {
            return Err(Error::ClockUnavailable);
        },
    };
    ctx.post.data = Some(BlogPost { author, title, content, post_id, timestamp });
    Ok(())
}

/// Replaces the title and the body of a child record of the signer, and
/// stamps it with the time of the runtime's clock. Whatever the clock
/// answers, the call is carried out as `update_post_at` carries it out for
/// that answer.
pub fn update_post(ctx: &mut UpdatePost, title: String, content: String) -> (r: Result<(), Error>)
    ensures
        exists|now: Option<i64>|
            carried_out(
                #[trigger] old(ctx).outcome(title, content, now),
                *old(ctx),
                *final(ctx),
                r,
            ),
{
    let now = match clock_unix_timestamp() {
        Ok(timestamp) => Some(timestamp),
        Err(_) => None,
    };
    update_post_at(ctx, title, content, now)
}

/// The accounts of `delete_post`.
#[derive(Clone, Debug, PartialEq, Eq)]
pub struct DeletePost {
    /// The child to remove.
    pub post: Account<BlogPost>,
    /// The container of the signer.
    pub blog: Account<Blog>,
    /// The author, who signs and receives what was reserved for the child.
    pub author: Signer,
}

impl DeletePost {
    /// The shared requirements, with `UnauthorizedDelete` for a signer who
    /// is not the author.
    pub open spec fn requirements(self) -> Seq<Requirement> {
        author_requirements(self.post, self.blog, self.author, ErrorCode::UnauthorizedDelete)
    }

    /// The requirements of the instruction on these accounts, in the order
    /// in which they are evaluated.
    pub fn collect_requirements(&self) -> (list: Vec<Requirement>)
        ensures
            list@ == self.requirements(),
    {
        collect_author_requirements(
            &self.post,
            &self.blog,
            &self.author,
            ErrorCode::UnauthorizedDelete,
        )
    }

    /// The accounts after the child has been removed: no record at its
    /// address, its balance at zero, and the author's balance raised by what
    /// the child's account held.
    pub open spec fn deleted(self) -> DeletePost {
        DeletePost {
            post: Account { data: None, lamports: 0, ..self.post },
            author: Signer {
                lamports: (self.author.lamports + self.post.lamports) as u64,
                ..self.author
            },
            ..self
        }
    }

    /// The outcome of the instruction. In this order: the error of the first
    /// requirement that does not hold; `MathOverflow` where the author's
    /// balance cannot take the child's balance. Else the accounts without
    /// the child.
    pub open spec fn outcome(self) -> Result<DeletePost, Error> {
        if let Some(error) = first_violation(self.requirements()) {
            Err(error)
        } else if self.author.lamports + self.post.lamports > u64::MAX {
            Err(Error::Program(ErrorCode::MathOverflow))
        } else {
            Ok(self.deleted())
        }
    }
}

/// Removes a child record of the signer and releases to the signer what its
/// account held. The sequence number of the child is not given out again:
/// the container's count is not touched.
pub fn delete_post(ctx: &mut DeletePost) -> (r: Result<(), Error>)
    ensures
        carried_out(old(ctx).outcome(), *old(ctx), *final(ctx), r),
{
    let requirements = ctx.collect_requirements();
    match check_all(&requirements) {
        Ok(()) => {},
        Err(error) => {
            return Err(error);
        },
    }
    let lamports = match ctx.author.lamports.checked_add(ctx.post.lamports) {
        Some(lamports) => lamports,
        None => {
            return Err(Error::Program(ErrorCode::MathOverflow));
        },
    };
    ctx.author.lamports = lamports;
    ctx.post.lamports = 0;
    ctx.post.data = None;
    Ok(())
}

} // verus!
