//! What holds of the instructions, on every input and across calls, proved
//! from their outcomes.

use crate::accounts::Account;
use crate::accounts::Program;
use crate::accounts::Signer;
use crate::address::container_tag;
use crate::address::derived;
use crate::address::Address;
use crate::address::Derivation;
use crate::blog::author_requirements;
use crate::blog::field_error;
use crate::blog::Blog;
use crate::blog::BlogPost;
use crate::blog::CreatePost;
use crate::blog::DeletePost;
use crate::blog::InitializeBlog;
use crate::blog::UpdatePost;
use crate::blog::MAX_CONTENT_LEN;
use crate::blog::MAX_TITLE_LEN;
use crate::constraints::first_violation;
use crate::constraints::lemma_first_violation;
use crate::constraints::lemma_first_violation_at;
use crate::error::ConstraintError;
use crate::error::Error;
use crate::error::ErrorCode;
use crate::error::VaultError;
use crate::runtime::system_program_bytes;
use crate::vault::Deposit;
use crate::vault::Vault;
use vstd::prelude::*;

verus! {

/// Whether the account is the system program and can be executed.
pub open spec fn is_system_program(program: Program) -> bool {
    program.key@ == system_program_bytes() && program.executable
}

/// Whether the account holds a child record and is at the address derived
/// for the sequence number of that record under the container at
/// `container`.
pub open spec fn bound_to(post: Account<BlogPost>, container: Address) -> bool {
    &&& post.data matches Some(record)
    &&& (Derivation::Child { container, sequence_id: record.post_id }).names(post.key)
}

/// The accounts of `initialize_blog` are in order: the owner signs and is
/// writable, the system program is supplied, and the slot is vacant and at
/// the address derived for the owner's container.
pub open spec fn initialize_in_order(ctx: InitializeBlog) -> bool {
    &&& ctx.authority.is_signer
    &&& ctx.authority.is_writable
    &&& is_system_program(ctx.system_program)
    &&& ctx.blog.data is None
    &&& (Derivation::Container { owner: ctx.authority.key }).names(ctx.blog.key)
}

/// The accounts of `create_post` are in order: the owner signs and is
/// writable, the system program is supplied, the container exists, names
/// the owner, is writable and at the address derived for the owner's
/// container, and the slot of the child is vacant and at the address derived
/// for the container's count.
pub open spec fn create_in_order(ctx: CreatePost) -> bool {
    &&& ctx.authority.is_signer
    &&& ctx.authority.is_writable
    &&& is_system_program(ctx.system_program)
    &&& ctx.blog.data matches Some(blog)
    &&& blog.authority == ctx.authority.key
    &&& ctx.blog.is_writable
    &&& (Derivation::Container { owner: ctx.authority.key }).names(ctx.blog.key)
    &&& ctx.post.data is None
    &&& (Derivation::Child { container: ctx.blog.key, sequence_id: blog.post_count }).names(
        ctx.post.key,
    )
}

/// The accounts of `update_post` or `delete_post` are in order: the child
/// exists, is writable and at the address derived for its sequence number
/// under the container, its author signs and is writable, and the container
/// exists at the address derived for the author's container.
pub open spec fn author_in_order(post: Account<BlogPost>, blog: Account<Blog>, author: Signer) -> bool {
    &&& post.data matches Some(record)
    &&& author.is_signer
    &&& record.author == author.key
    &&& blog.data is Some
    &&& bound_to(post, blog.key)
    &&& post.is_writable
    &&& (Derivation::Container { owner: author.key }).names(blog.key)
    &&& author.is_writable
}

/// The accounts of `deposit` are in order: the depositor signs and is
/// writable, the vault exists and is writable, and the system program is
/// supplied.
pub open spec fn deposit_in_order(ctx: Deposit) -> bool {
    &&& ctx.user.is_signer
    &&& ctx.user.is_writable
    &&& ctx.vault.data is Some
    &&& ctx.vault.is_writable
    &&& is_system_program(ctx.system_program)
}

/// The requirements of `initialize_blog` all hold exactly when its accounts
/// are in order.
pub proof fn lemma_initialize_requirements(ctx: InitializeBlog)
    ensures
        first_violation(ctx.requirements()) is None <==> initialize_in_order(ctx),
{
    let list = ctx.requirements();
    lemma_first_violation(list);
    if first_violation(list) is None {
        assert(list[0].holds() && list[1].holds() && list[2].holds() && list[3].holds()
            && list[4].holds());
    }
}

/// The requirements of `create_post` all hold exactly when its accounts are
/// in order.
pub proof fn lemma_create_requirements(ctx: CreatePost)
    ensures
        first_violation(ctx.requirements()) is None <==> create_in_order(ctx),
{
    let list = ctx.requirements();
    lemma_first_violation(list);
    if first_violation(list) is None {
        assert(list[0].holds());
        assert(list[1].holds() && list[2].holds() && list[3].holds() && list[4].holds());
        assert(list[5].holds() && list[6].holds() && list[7].holds() && list[8].holds());
    }
}

/// The requirements that `update_post` and `delete_post` share all hold
/// exactly when the accounts are in order, whichever error names a signer
/// who is not the author.
pub proof fn lemma_author_requirements(
    post: Account<BlogPost>,
    blog: Account<Blog>,
    author: Signer,
    unauthorized: ErrorCode,
)
    ensures
        first_violation(author_requirements(post, blog, author, unauthorized)) is None
            <==> author_in_order(post, blog, author),
{
    let list = author_requirements(post, blog, author, unauthorized);
    lemma_first_violation(list);
    if first_violation(list) is None {
        assert(list[0].holds());
        assert(list[1].holds() && list[2].holds() && list[3].holds() && list[4].holds());
        assert(list[5].holds() && list[6].holds() && list[7].holds());
    }
}

/// The requirements of `deposit` all hold exactly when its accounts are in
/// order.
pub proof fn lemma_deposit_requirements(ctx: Deposit)
    ensures
        first_violation(ctx.requirements()) is None <==> deposit_in_order(ctx),
{
    let list = ctx.requirements();
    lemma_first_violation(list);
    if first_violation(list) is None {
        assert(list[0].holds() && list[1].holds() && list[2].holds() && list[3].holds()
            && list[4].holds());
    }
}

/// `initialize_blog` succeeds exactly when its accounts are in order. The
/// container it leaves names the signer as its owner, counts no children,
/// and stands at the address that `derive` gives for the tag of containers
/// and the owner's bytes: deriving again after the call finds the container.
pub proof fn lemma_initialize_blog(ctx: InitializeBlog)
    ensures
        ctx.outcome() is Ok <==> initialize_in_order(ctx),
        initialize_in_order(ctx) ==> {
            &&& ctx.outcome() == Ok::<InitializeBlog, Error>(ctx.initialized())
            &&& ctx.initialized().blog.data == Some(
                Blog { authority: ctx.authority.key, post_count: 0 },
            )
            &&& ctx.initialized().blog.key == ctx.blog.key
            &&& derived(container_tag(), seq![ctx.authority.key@]) matches Some((address, _))
            &&& address == ctx.initialized().blog.key@
        },
{
    lemma_initialize_requirements(ctx);
}

/// `create_post_at` succeeds exactly when its accounts are in order, title
/// and body can be stored, the clock gave a time, and the container has not
/// counted `u64::MAX` children. The child it leaves names the signer as its
/// author, carries the title, the body and the time, is numbered by the
/// count that the container had before the call, and stands at the address
/// derived for that number; the container counts one more.
pub proof fn lemma_create_post(ctx: CreatePost, title: String, content: String, now: Option<i64>)
    ensures
        ctx.outcome(title, content, now) is Ok <==> {
            &&& create_in_order(ctx)
            &&& field_error(title@, content@) is None
            &&& now is Some
            &&& ctx.blog.data->Some_0.post_count < u64::MAX
        },
        ctx.outcome(title, content, now) is Ok ==> {
            let after = ctx.created(title, content, now->Some_0);
            let count = ctx.blog.data->Some_0.post_count;
            &&& ctx.outcome(title, content, now) == Ok::<CreatePost, Error>(after)
            &&& after.post.data == Some(
                BlogPost {
                    author: ctx.authority.key,
                    title,
                    content,
                    post_id: count,
                    timestamp: now->Some_0,
                },
            )
            &&& after.blog.data == Some(
                Blog { authority: ctx.authority.key, post_count: (count + 1) as u64 },
            )
            &&& after.post.data->Some_0.well_formed()
            &&& after.blog.key == ctx.blog.key
            &&& after.post.key == ctx.post.key
            &&& bound_to(after.post, after.blog.key)
        },
{
    lemma_create_requirements(ctx);
}

/// Title and body are accepted exactly when the title has 1 to 100
/// characters and the body 1 to 1000. A title of more than 100 characters is
/// `TitleTooLong`; under a title of at most 100 a body of more than 1000
/// characters is `ContentTooLong`; an empty title over a body of at most
/// 1000 characters is `TitleEmpty`; an empty body under an acceptable title
/// is `ContentEmpty`.
pub proof fn lemma_field_bounds(title: Seq<char>, content: Seq<char>)
    ensures
        field_error(title, content) is None <==> 1 <= title.len() <= MAX_TITLE_LEN && 1
            <= content.len() <= MAX_CONTENT_LEN,
        title.len() > MAX_TITLE_LEN ==> field_error(title, content) == Some(
            ErrorCode::TitleTooLong,
        ),
        title.len() <= MAX_TITLE_LEN && content.len() > MAX_CONTENT_LEN ==> field_error(
            title,
            content,
        ) == Some(ErrorCode::ContentTooLong),
        title.len() == 0 && content.len() <= MAX_CONTENT_LEN ==> field_error(title, content)
            == Some(ErrorCode::TitleEmpty),
        1 <= title.len() <= MAX_TITLE_LEN && content.len() == 0 ==> field_error(title, content)
            == Some(ErrorCode::ContentEmpty),
{
}

/// With the accounts in order and a time given, `create_post_at` and
/// `update_post_at` reject a title of no or of more than 100 characters and
/// a body of no or of more than 1000 with the error of `field_error`, and
/// accept every title of 1 to 100 characters with every body of 1 to 1000,
/// on a container that can still count.
pub proof fn lemma_fields_decide(
    create: CreatePost,
    update: UpdatePost,
    title: String,
    content: String,
    timestamp: i64,
)
    requires
        create_in_order(create),
        create.blog.data->Some_0.post_count < u64::MAX,
        author_in_order(update.post, update.blog, update.author),
    ensures
        field_error(title@, content@) matches Some(code) ==> {
            &&& create.outcome(title, content, Some(timestamp)) == Err::<CreatePost, Error>(
                Error::Program(code),
            )
            &&& update.outcome(title, content, Some(timestamp)) == Err::<UpdatePost, Error>(
                Error::Program(code),
            )
        },
        1 <= title@.len() <= MAX_TITLE_LEN && 1 <= content@.len() <= MAX_CONTENT_LEN ==> {
            &&& create.outcome(title, content, Some(timestamp)) == Ok::<CreatePost, Error>(
                create.created(title, content, timestamp),
            )
            &&& update.outcome(title, content, Some(timestamp)) == Ok::<UpdatePost, Error>(
                update.updated(title, content, timestamp),
            )
        },
{
    lemma_create_requirements(create);
    lemma_author_requirements(
        update.post,
        update.blog,
        update.author,
        ErrorCode::UnauthorizedUpdate,
    );
    lemma_field_bounds(title@, content@);
}

/// What one call of `create_post_at` is given besides the container.
pub struct CreateCall {
    pub post: Account<BlogPost>,
    pub authority: Signer,
    pub system_program: Program,
    pub title: String,
    pub content: String,
    pub now: Option<i64>,
}

/// The accounts of a call of `create_post_at` on a container.
pub open spec fn call_on(blog: Account<Blog>, call: CreateCall) -> CreatePost {
    CreatePost {
        blog,
        post: call.post,
        authority: call.authority,
        system_program: call.system_program,
    }
}

/// The container after a sequence of calls of `create_post_at` on it, each
/// on the container as the call before left it, and the children that the
/// successful ones among them created, in the order of their creation.
pub open spec fn replay(blog: Account<Blog>, calls: Seq<CreateCall>) -> (Account<Blog>, Seq<BlogPost>)
    decreases calls.len(),
{
    if calls.len() == 0 {
        (blog, Seq::empty())
    } else {
        let (container, created) = replay(blog, calls.drop_last());
        let call = calls.last();
        match call_on(container, call).outcome(call.title, call.content, call.now) {
            Ok(after) => (after.blog, created.push(after.post.data->Some_0)),
            Err(_) => (container, created),
        }
    }
}

/// Over any sequence of calls of `create_post_at` on one container, failed
/// ones among them or not, the children created carry the sequence numbers
/// that follow the container's first count one by one, without gap or
/// repeat, and the container ends counting as many more as were created.
pub proof fn lemma_sequence_ids(blog: Account<Blog>, calls: Seq<CreateCall>)
    requires
        blog.data is Some,
    ensures
        ({
            let (container, created) = replay(blog, calls);
            &&& container.key == blog.key
            &&& container.data is Some
            &&& container.data->Some_0.authority == blog.data->Some_0.authority
            &&& container.data->Some_0.post_count == blog.data->Some_0.post_count + created.len()
            &&& forall|i: int|
                0 <= i < created.len() ==> (#[trigger] created[i]).post_id
                    == blog.data->Some_0.post_count + i
        }),
    decreases calls.len(),
{
    if calls.len() > 0 {
        lemma_sequence_ids(blog, calls.drop_last());
        let (container, _) = replay(blog, calls.drop_last());
        let call = calls.last();
        lemma_create_post(call_on(container, call), call.title, call.content, call.now);
    }
}

/// On a container fresh from `initialize_blog`, any sequence of calls of
/// `create_post_at` creates the children numbered 0, 1, 2 and so on, and
/// leaves the container counting exactly the children that were created.
pub proof fn lemma_sequence_ids_from_zero(ctx: InitializeBlog, calls: Seq<CreateCall>)
    requires
        ctx.outcome() is Ok,
    ensures
        ({
            let (container, created) = replay(ctx.initialized().blog, calls);
            &&& container.data is Some
            &&& container.data->Some_0.post_count == created.len()
            &&& forall|i: int| 0 <= i < created.len() ==> (#[trigger] created[i]).post_id == i
        }),
{
    lemma_sequence_ids(ctx.initialized().blog, calls);
}

/// Once a child has been created under a container, no later call of
/// `create_post_at` on that container gives out its sequence number again,
/// whether the child still exists or not: the container counts on from
/// above it. A child can therefore come to stand at the address of an
/// earlier one only where two sequence numbers derive the same address.
pub proof fn lemma_number_not_given_again(
    first: CreatePost,
    title: String,
    content: String,
    timestamp: i64,
    calls: Seq<CreateCall>,
)
    requires
        first.outcome(title, content, Some(timestamp)) is Ok,
    ensures
        ({
            let created = first.created(title, content, timestamp);
            let (_, later) = replay(created.blog, calls);
            forall|i: int|
                0 <= i < later.len() ==> (#[trigger] later[i]).post_id
                    > created.post.data->Some_0.post_id
        }),
{
    lemma_create_post(first, title, content, Some(timestamp));
    lemma_sequence_ids(first.created(title, content, timestamp).blog, calls);
}

/// On a container that has counted `u64::MAX` children `create_post_at`
/// never succeeds, and where nothing else is wrong with the call (the
/// accounts are in order, title and body can be stored, the clock gave a
/// time) its error is `MathOverflow`. As after every error, the count is
/// then what it was.
pub proof fn lemma_create_post_overflow(
    ctx: CreatePost,
    title: String,
    content: String,
    now: Option<i64>,
)
    requires
        ctx.blog.data matches Some(blog) && blog.post_count == u64::MAX,
    ensures
        ctx.outcome(title, content, now) is Err,
        create_in_order(ctx) && field_error(title@, content@) is None && now is Some
            ==> ctx.outcome(title, content, now) == Err::<CreatePost, Error>(
            Error::Program(ErrorCode::MathOverflow),
        ),
{
    lemma_create_requirements(ctx);
}

/// `update_post_at` signed by an identity that is not the author of the
/// child fails with `UnauthorizedUpdate`, whatever else it is given; as
/// after every error, the child is then what it was.
pub proof fn lemma_only_author_updates(
    ctx: UpdatePost,
    title: String,
    content: String,
    now: Option<i64>,
)
    requires
        ctx.author.is_signer,
        ctx.post.data matches Some(record) && record.author != ctx.author.key,
    ensures
        ctx.outcome(title, content, now) == Err::<UpdatePost, Error>(
            Error::Program(ErrorCode::UnauthorizedUpdate),
        ),
{
    lemma_first_violation_at(ctx.requirements(), 2);
}

/// `delete_post` signed by an identity that is not the author of the child
/// fails with `UnauthorizedDelete`, whatever else it is given; as after
/// every error, the child is then what it was.
pub proof fn lemma_only_author_deletes(ctx: DeletePost)
    requires
        ctx.author.is_signer,
        ctx.post.data matches Some(record) && record.author != ctx.author.key,
    ensures
        ctx.outcome() == Err::<DeletePost, Error>(Error::Program(ErrorCode::UnauthorizedDelete)),
{
    lemma_first_violation_at(ctx.requirements(), 2);
}

/// A child that is not at the address derived for its sequence number under
/// the supplied container is neither updated nor deleted, not even by its
/// author and whatever else is supplied, writable or not: the call fails
/// with `AddressMismatch`, or with `NoDerivedAddress` where no address can
/// be derived for the slot at all. As after every error, the child is then
/// what it was.
pub proof fn lemma_misplaced_child(
    update: UpdatePost,
    delete: DeletePost,
    title: String,
    content: String,
    now: Option<i64>,
)
    ensures
        ({
            let slot = Derivation::Child {
                container: update.blog.key,
                sequence_id: update.post.data->Some_0.post_id,
            };
            update.post.data matches Some(record) && update.author.is_signer && record.author
                == update.author.key && update.blog.data is Some && !slot.names(update.post.key)
                ==> update.outcome(title, content, now) == Err::<UpdatePost, Error>(
                Error::Constraint(
                    if slot.address() is Some {
                        ConstraintError::AddressMismatch
                    } else {
                        ConstraintError::NoDerivedAddress
                    },
                ),
            )
        }),
        ({
            let slot = Derivation::Child {
                container: delete.blog.key,
                sequence_id: delete.post.data->Some_0.post_id,
            };
            delete.post.data matches Some(record) && delete.author.is_signer && record.author
                == delete.author.key && delete.blog.data is Some && !slot.names(delete.post.key)
                ==> delete.outcome() == Err::<DeletePost, Error>(
                Error::Constraint(
                    if slot.address() is Some {
                        ConstraintError::AddressMismatch
                    } else {
                        ConstraintError::NoDerivedAddress
                    },
                ),
            )
        }),
{
    if update.post.data is Some && update.author.is_signer && update.post.data->Some_0.author
        == update.author.key && update.blog.data is Some && !(Derivation::Child {
        container: update.blog.key,
        sequence_id: update.post.data->Some_0.post_id,
    }).names(update.post.key) {
        lemma_first_violation_at(update.requirements(), 4);
    }
    if delete.post.data is Some && delete.author.is_signer && delete.post.data->Some_0.author
        == delete.author.key && delete.blog.data is Some && !(Derivation::Child {
        container: delete.blog.key,
        sequence_id: delete.post.data->Some_0.post_id,
    }).names(delete.post.key) {
        lemma_first_violation_at(delete.requirements(), 4);
    }
}

/// `update_post_at` succeeds exactly when its accounts are in order, title
/// and body can be stored, and the clock gave a time. The child it leaves
/// carries the new title, the new body and the time, and the author and the
/// sequence number that it had; the container and the author are as they
/// were.
pub proof fn lemma_update_post(ctx: UpdatePost, title: String, content: String, now: Option<i64>)
    ensures
        ctx.outcome(title, content, now) is Ok <==> {
            &&& author_in_order(ctx.post, ctx.blog, ctx.author)
            &&& field_error(title@, content@) is None
            &&& now is Some
        },
        ctx.outcome(title, content, now) is Ok ==> {
            let after = ctx.updated(title, content, now->Some_0);
            let record = ctx.post.data->Some_0;
            &&& ctx.outcome(title, content, now) == Ok::<UpdatePost, Error>(after)
            &&& after.post.data == Some(
                BlogPost {
                    author: record.author,
                    title,
                    content,
                    post_id: record.post_id,
                    timestamp: now->Some_0,
                },
            )
            &&& after.post.data->Some_0.well_formed()
            &&& after.post.key == ctx.post.key
            &&& after.blog == ctx.blog
            &&& after.author == ctx.author
            &&& bound_to(after.post, after.blog.key)
        },
{
    lemma_author_requirements(ctx.post, ctx.blog, ctx.author, ErrorCode::UnauthorizedUpdate);
}

/// `delete_post` succeeds exactly when its accounts are in order and the
/// author's balance can take what the child's account holds. It leaves no
/// record at the address of the child, whose balance goes to the author,
/// and the container as it was, its count with it.
pub proof fn lemma_delete_post(ctx: DeletePost)
    ensures
        ctx.outcome() is Ok <==> {
            &&& author_in_order(ctx.post, ctx.blog, ctx.author)
            &&& ctx.author.lamports + ctx.post.lamports <= u64::MAX
        },
        ctx.outcome() is Ok ==> {
            let after = ctx.deleted();
            &&& ctx.outcome() == Ok::<DeletePost, Error>(after)
            &&& after.post.data is None
            &&& after.post.key == ctx.post.key
            &&& after.post.lamports == 0
            &&& after.author.lamports == ctx.author.lamports + ctx.post.lamports
            &&& after.blog == ctx.blog
        },
{
    lemma_author_requirements(ctx.post, ctx.blog, ctx.author, ErrorCode::UnauthorizedDelete);
}

/// The life of a child. On a container fresh from `initialize_blog`, with a
/// vacant writable slot at the address derived for the container's first
/// child, and with texts that can be stored: the owner's `create_post_at`
/// succeeds and numbers the child 0; the owner's `update_post_at` on what
/// the creation left succeeds and leaves the child with the new texts and
/// still the number 0; the owner's `delete_post` on what the update left
/// succeeds, where the owner's balance can take the refund, and leaves no
/// record at the address of the child.
pub proof fn lemma_life_of_a_child(
    start: InitializeBlog,
    slot: Account<BlogPost>,
    first_title: String,
    first_content: String,
    created_at: i64,
    second_title: String,
    second_content: String,
    updated_at: i64,
)
    requires
        initialize_in_order(start),
        start.blog.is_writable,
        slot.data is None,
        slot.is_writable,
        (Derivation::Child { container: start.blog.key, sequence_id: 0 }).names(slot.key),
        field_error(first_title@, first_content@) is None,
        field_error(second_title@, second_content@) is None,
        start.authority.lamports + slot.lamports <= u64::MAX,
    ensures
        ({
            let owner = start.authority;
            let begun = start.initialized();
            let create = CreatePost {
                blog: begun.blog,
                post: slot,
                authority: owner,
                system_program: start.system_program,
            };
            let created = create.created(first_title, first_content, created_at);
            let update = UpdatePost { post: created.post, blog: created.blog, author: owner };
            let updated = update.updated(second_title, second_content, updated_at);
            let delete = DeletePost { post: updated.post, blog: updated.blog, author: owner };
            &&& start.outcome() == Ok::<InitializeBlog, Error>(begun)
            &&& create.outcome(first_title, first_content, Some(created_at)) == Ok::<
                CreatePost,
                Error,
            >(created)
            &&& created.post.data == Some(
                BlogPost {
                    author: owner.key,
                    title: first_title,
                    content: first_content,
                    post_id: 0,
                    timestamp: created_at,
                },
            )
            &&& created.blog.data == Some(Blog { authority: owner.key, post_count: 1 })
            &&& update.outcome(second_title, second_content, Some(updated_at)) == Ok::<
                UpdatePost,
                Error,
            >(updated)
            &&& updated.post.data == Some(
                BlogPost {
                    author: owner.key,
                    title: second_title,
                    content: second_content,
                    post_id: 0,
                    timestamp: updated_at,
                },
            )
            &&& delete.outcome() == Ok::<DeletePost, Error>(delete.deleted())
            &&& delete.deleted().post.data is None
            &&& delete.deleted().post.key == slot.key
            &&& delete.deleted().blog.data == Some(Blog { authority: owner.key, post_count: 1 })
        }),
{
    let owner = start.authority;
    let begun = start.initialized();
    let create = CreatePost {
        blog: begun.blog,
        post: slot,
        authority: owner,
        system_program: start.system_program,
    };
    lemma_initialize_blog(start);
    lemma_create_post(create, first_title, first_content, Some(created_at));
    let created = create.created(first_title, first_content, created_at);
    let update = UpdatePost { post: created.post, blog: created.blog, author: owner };
    lemma_update_post(update, second_title, second_content, Some(updated_at));
    let updated = update.updated(second_title, second_content, updated_at);
    let delete = DeletePost { post: updated.post, blog: updated.blog, author: owner };
    lemma_delete_post(delete);
}

/// A deposit goes ahead exactly when its accounts are in order, the vault
/// is not locked, and the depositor has the amount available.
pub proof fn lemma_deposit_goes_ahead(ctx: Deposit, amount: u64)
    ensures
        ctx.refusal(amount) is None <==> (deposit_in_order(ctx) && ctx.vault.data == Some(
            Vault { locked: false },
        ) && ctx.user.lamports >= amount),
{
    lemma_deposit_requirements(ctx);
}

/// A deposit into a locked vault is refused with `VaultLocked`, and so is
/// the next one, of whatever amounts: `deposit` changes nothing, so the
/// second call meets the accounts that the first one met. A refused deposit
/// gives out no transfer and no event.
pub proof fn lemma_locked_vault_refuses(ctx: Deposit, first: u64, second: u64)
    requires
        deposit_in_order(ctx),
        ctx.vault.data matches Some(vault) && vault.locked,
    ensures
        ctx.refusal(first) == Some(Error::Vault(VaultError::VaultLocked)),
        ctx.refusal(second) == Some(Error::Vault(VaultError::VaultLocked)),
{
    lemma_deposit_requirements(ctx);
}

} // verus!
