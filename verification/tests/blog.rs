use ledger_engine::accounts::Account;
use ledger_engine::accounts::Program;
use ledger_engine::accounts::Signer;
use ledger_engine::address::Address;
use ledger_engine::address::Derivation;
use ledger_engine::blog::create_post;
use ledger_engine::blog::create_post_at;
use ledger_engine::blog::delete_post;
use ledger_engine::blog::initialize_blog;
use ledger_engine::blog::update_post;
use ledger_engine::blog::update_post_at;
use ledger_engine::blog::validate_fields;
use ledger_engine::blog::Blog;
use ledger_engine::blog::BlogPost;
use ledger_engine::blog::CreatePost;
use ledger_engine::blog::DeletePost;
use ledger_engine::blog::InitializeBlog;
use ledger_engine::blog::UpdatePost;
use ledger_engine::constraints::check_all;
use ledger_engine::constraints::Requirement;
use ledger_engine::error::ConstraintError;
use ledger_engine::error::Error;
use ledger_engine::error::ErrorCode;

fn address(byte: u8) -> Address {
    Address { bytes: [byte; 32] }
}

fn signer(key: Address) -> Signer {
    Signer { key, is_signer: true, is_writable: true, lamports: 1_000_000 }
}

fn system() -> Program {
    Program { key: address(0), executable: true }
}

fn init_ctx(owner: Address) -> InitializeBlog {
    InitializeBlog { blog: vacant(blog_key(owner)), authority: signer(owner), system_program: system() }
}

fn blog_key(owner: Address) -> Address {
    Derivation::Container { owner }.find().unwrap().0
}

fn post_key(container: Address, sequence_id: u64) -> Address {
    Derivation::Child { container, sequence_id }.find().unwrap().0
}

fn vacant<T>(key: Address) -> Account<T> {
    Account { key, is_writable: true, lamports: 0, data: None }
}

fn blog_of(owner: Address, post_count: u64) -> Account<Blog> {
    Account {
        key: blog_key(owner),
        is_writable: true,
        lamports: 900,
        data: Some(Blog { authority: owner, post_count }),
    }
}

fn post_of(owner: Address, post_id: u64) -> Account<BlogPost> {
    Account {
        key: post_key(blog_key(owner), post_id),
        is_writable: true,
        lamports: 700,
        data: Some(BlogPost {
            author: owner,
            title: "Hello".to_string(),
            content: "World".to_string(),
            post_id,
            timestamp: 10,
        }),
    }
}

fn create_ctx(owner: Address, post_count: u64) -> CreatePost {
    let blog = blog_of(owner, post_count);
    let post = vacant(post_key(blog.key, post_count));
    CreatePost { blog, post, authority: signer(owner), system_program: system() }
}

fn update_ctx(owner: Address, post_id: u64) -> UpdatePost {
    UpdatePost { post: post_of(owner, post_id), blog: blog_of(owner, post_id + 1), author: signer(owner) }
}

fn delete_ctx(owner: Address, post_id: u64) -> DeletePost {
    DeletePost { post: post_of(owner, post_id), blog: blog_of(owner, post_id + 1), author: signer(owner) }
}

#[test]
fn initialize_creates_an_empty_container_of_the_signer() {
    let owner = address(1);
    let mut ctx = init_ctx(owner);
    assert_eq!(initialize_blog(&mut ctx), Ok(()));
    assert_eq!(ctx.blog.data, Some(Blog { authority: owner, post_count: 0 }));
    assert_eq!(ctx.authority, signer(owner));
}

#[test]
fn initialized_container_is_at_the_derived_address() {
    let owner = address(1);
    let mut ctx = init_ctx(owner);
    assert_eq!(initialize_blog(&mut ctx), Ok(()));
    let (derived, _) = ledger_engine::address::derive("blog", &vec![owner.to_vec()]).unwrap();
    assert_eq!(derived, ctx.blog.key);
}

#[test]
fn initialize_needs_the_signature_of_the_owner() {
    let owner = address(1);
    let mut ctx = init_ctx(owner);
    ctx.authority.is_signer = false;
    let before = ctx.clone();
    assert_eq!(initialize_blog(&mut ctx), Err(Error::Constraint(ConstraintError::NotSigner)));
    assert_eq!(ctx, before);
}

#[test]
fn initialize_needs_a_writable_owner() {
    let owner = address(1);
    let mut ctx = init_ctx(owner);
    ctx.authority.is_writable = false;
    assert_eq!(initialize_blog(&mut ctx), Err(Error::Constraint(ConstraintError::NotWritable)));
    assert_eq!(ctx.blog.data, None);
}

#[test]
fn initialize_refuses_an_account_at_another_address() {
    let owner = address(1);
    let mut ctx = init_ctx(owner);
    ctx.blog.key = blog_key(address(2));
    assert_eq!(initialize_blog(&mut ctx), Err(Error::Constraint(ConstraintError::AddressMismatch)));
    assert_eq!(ctx.blog.data, None);
}

#[test]
fn initialize_refuses_an_existing_container() {
    let owner = address(1);
    let mut ctx = init_ctx(owner);
    ctx.blog = blog_of(owner, 3);
    assert_eq!(
        initialize_blog(&mut ctx),
        Err(Error::Constraint(ConstraintError::AlreadyInitialized))
    );
    assert_eq!(ctx.blog.data, Some(Blog { authority: owner, post_count: 3 }));
}

#[test]
fn initialize_checks_its_requirements_in_order() {
    let owner = address(1);
    let mut ctx = init_ctx(owner);
    ctx.authority.is_signer = false;
    ctx.authority.is_writable = false;
    ctx.system_program.key = address(9);
    ctx.blog = blog_of(address(2), 0);
    let list = ctx.collect_requirements();
    assert_eq!(
        list,
        vec![
            Requirement::Signer { account: owner, is_signer: false },
            Requirement::SystemProgram { supplied: address(9), executable: true },
            Requirement::AddressMatch {
                supplied: ctx.blog.key,
                derivation: Derivation::Container { owner },
            },
            Requirement::Vacant { account: ctx.blog.key, present: true },
            Requirement::Writable { account: owner, is_writable: false },
        ]
    );
    assert_eq!(list[0].check(), Err(Error::Constraint(ConstraintError::NotSigner)));
    assert_eq!(list[1].check(), Err(Error::Constraint(ConstraintError::InvalidProgramId)));
    assert_eq!(list[2].check(), Err(Error::Constraint(ConstraintError::AddressMismatch)));
    assert_eq!(list[3].check(), Err(Error::Constraint(ConstraintError::AlreadyInitialized)));
    assert_eq!(list[4].check(), Err(Error::Constraint(ConstraintError::NotWritable)));
    assert_eq!(check_all(&list), Err(Error::Constraint(ConstraintError::NotSigner)));
}

#[test]
fn initialize_looks_at_the_address_before_the_owner_is_writable() {
    let owner = address(1);
    let mut ctx = init_ctx(owner);
    ctx.authority.is_writable = false;
    ctx.blog.key = blog_key(address(2));
    assert_eq!(initialize_blog(&mut ctx), Err(Error::Constraint(ConstraintError::AddressMismatch)));
    let mut ctx = init_ctx(owner);
    ctx.authority.is_writable = false;
    ctx.blog = blog_of(owner, 0);
    assert_eq!(
        initialize_blog(&mut ctx),
        Err(Error::Constraint(ConstraintError::AlreadyInitialized))
    );
}

#[test]
fn initialize_needs_the_system_program() {
    let owner = address(1);
    let mut ctx = init_ctx(owner);
    ctx.system_program.key = owner;
    assert_eq!(initialize_blog(&mut ctx), Err(Error::Constraint(ConstraintError::InvalidProgramId)));
    let mut ctx = init_ctx(owner);
    ctx.system_program.executable = false;
    assert_eq!(
        initialize_blog(&mut ctx),
        Err(Error::Constraint(ConstraintError::InvalidProgramExecutable))
    );
    assert_eq!(ctx.blog.data, None);
}

#[test]
fn create_numbers_the_child_and_counts_it() {
    let owner = address(1);
    let mut ctx = create_ctx(owner, 0);
    let r = create_post_at(&mut ctx, "Hello".to_string(), "World".to_string(), Some(1_700_000_000));
    assert_eq!(r, Ok(()));
    assert_eq!(
        ctx.post.data,
        Some(BlogPost {
            author: owner,
            title: "Hello".to_string(),
            content: "World".to_string(),
            post_id: 0,
            timestamp: 1_700_000_000,
        })
    );
    assert_eq!(ctx.blog.data, Some(Blog { authority: owner, post_count: 1 }));
}

#[test]
fn sequence_ids_follow_one_another_without_gap() {
    let owner = address(1);
    let mut blog = blog_of(owner, 0);
    let mut ids = Vec::new();
    let mut successes = 0;
    for round in 0..6u64 {
        let count = blog.data.unwrap().post_count;
        let title = if round % 3 == 1 { String::new() } else { format!("title {}", round) };
        let mut ctx = CreatePost {
            blog: blog.clone(),
            post: vacant(post_key(blog.key, count)),
            authority: signer(owner),
            system_program: system(),
        };
        if create_post_at(&mut ctx, title, "body".to_string(), Some(5)).is_ok() {
            ids.push(ctx.post.data.unwrap().post_id);
            successes += 1;
        }
        blog = ctx.blog;
    }
    assert_eq!(ids, vec![0, 1, 2, 3]);
    assert_eq!(blog.data.unwrap().post_count, successes);
}

#[test]
fn create_fails_when_the_count_is_exhausted() {
    let owner = address(1);
    let mut ctx = create_ctx(owner, u64::MAX);
    let before = ctx.clone();
    let r = create_post_at(&mut ctx, "Hello".to_string(), "World".to_string(), Some(5));
    assert_eq!(r, Err(Error::Program(ErrorCode::MathOverflow)));
    assert_eq!(ctx, before);
    assert_eq!(ctx.blog.data.unwrap().post_count, u64::MAX);
}

#[test]
fn create_succeeds_just_below_the_last_count() {
    let owner = address(1);
    let mut ctx = create_ctx(owner, u64::MAX - 1);
    let r = create_post_at(&mut ctx, "Hello".to_string(), "World".to_string(), Some(5));
    assert_eq!(r, Ok(()));
    assert_eq!(ctx.post.data.unwrap().post_id, u64::MAX - 1);
    assert_eq!(ctx.blog.data.unwrap().post_count, u64::MAX);
}

#[test]
fn title_bounds() {
    assert_eq!(validate_fields("", "body"), Err(ErrorCode::TitleEmpty));
    assert_eq!(validate_fields("t", "body"), Ok(()));
    assert_eq!(validate_fields(&"t".repeat(100), "body"), Ok(()));
    assert_eq!(validate_fields(&"t".repeat(101), "body"), Err(ErrorCode::TitleTooLong));
}

#[test]
fn body_bounds() {
    assert_eq!(validate_fields("title", ""), Err(ErrorCode::ContentEmpty));
    assert_eq!(validate_fields("title", "b"), Ok(()));
    assert_eq!(validate_fields("title", &"b".repeat(1000)), Ok(()));
    assert_eq!(validate_fields("title", &"b".repeat(1001)), Err(ErrorCode::ContentTooLong));
}

#[test]
fn field_errors_come_in_a_fixed_order() {
    assert_eq!(validate_fields(&"t".repeat(101), &"b".repeat(1001)), Err(ErrorCode::TitleTooLong));
    assert_eq!(validate_fields("", &"b".repeat(1001)), Err(ErrorCode::ContentTooLong));
    assert_eq!(validate_fields("", ""), Err(ErrorCode::TitleEmpty));
    assert_eq!(validate_fields(&"t".repeat(101), ""), Err(ErrorCode::TitleTooLong));
}

#[test]
fn lengths_are_counted_in_characters() {
    assert_eq!(validate_fields(&"é".repeat(100), "body"), Ok(()));
    assert_eq!(validate_fields(&"é".repeat(101), "body"), Err(ErrorCode::TitleTooLong));
    assert_eq!(validate_fields("title", &"日".repeat(1000)), Ok(()));
    assert_eq!(validate_fields("title", &"日".repeat(1001)), Err(ErrorCode::ContentTooLong));
}

#[test]
fn create_rejects_bad_fields_and_changes_nothing() {
    let owner = address(1);
    let cases = [
        (String::new(), "body".to_string(), ErrorCode::TitleEmpty),
        ("t".repeat(101), "body".to_string(), ErrorCode::TitleTooLong),
        ("title".to_string(), String::new(), ErrorCode::ContentEmpty),
        ("title".to_string(), "b".repeat(1001), ErrorCode::ContentTooLong),
    ];
    for (title, content, code) in cases {
        let mut ctx = create_ctx(owner, 4);
        let before = ctx.clone();
        assert_eq!(create_post_at(&mut ctx, title, content, Some(5)), Err(Error::Program(code)));
        assert_eq!(ctx, before);
    }
}

#[test]
fn create_accepts_fields_at_their_bounds() {
    let owner = address(1);
    let mut ctx = create_ctx(owner, 0);
    assert_eq!(create_post_at(&mut ctx, "t".to_string(), "b".to_string(), Some(5)), Ok(()));
    let mut ctx = create_ctx(owner, 0);
    assert_eq!(create_post_at(&mut ctx, "t".repeat(100), "b".repeat(1000), Some(5)), Ok(()));
    assert_eq!(ctx.post.data.unwrap().title.len(), 100);
}

#[test]
fn create_without_a_clock_fails_and_changes_nothing() {
    let owner = address(1);
    let mut ctx = create_ctx(owner, 0);
    let before = ctx.clone();
    let r = create_post_at(&mut ctx, "Hello".to_string(), "World".to_string(), None);
    assert_eq!(r, Err(Error::ClockUnavailable));
    assert_eq!(ctx, before);
}

#[test]
fn create_reads_the_clock_of_the_runtime() {
    let owner = address(1);
    let mut ctx = create_ctx(owner, 0);
    let before = ctx.clone();
    let r = create_post(&mut ctx, "Hello".to_string(), "World".to_string());
    assert_eq!(r, Err(Error::ClockUnavailable));
    assert_eq!(ctx, before);
    let r = create_post(&mut ctx, String::new(), "World".to_string());
    assert_eq!(r, Err(Error::Program(ErrorCode::TitleEmpty)));
}

#[test]
fn create_needs_the_signature_of_the_owner() {
    let owner = address(1);
    let mut ctx = create_ctx(owner, 0);
    ctx.authority.is_signer = false;
    let r = create_post_at(&mut ctx, "Hello".to_string(), "World".to_string(), Some(5));
    assert_eq!(r, Err(Error::Constraint(ConstraintError::NotSigner)));
    assert_eq!(ctx.post.data, None);
}

#[test]
fn create_needs_an_existing_container() {
    let owner = address(1);
    let mut ctx = create_ctx(owner, 0);
    ctx.blog.data = None;
    let r = create_post_at(&mut ctx, "Hello".to_string(), "World".to_string(), Some(5));
    assert_eq!(r, Err(Error::Constraint(ConstraintError::NotInitialized)));
}

#[test]
fn create_refuses_the_container_of_another_owner() {
    let owner = address(1);
    let other = address(2);
    let blog = blog_of(other, 0);
    let post = vacant(post_key(blog.key, 0));
    let mut ctx = CreatePost { blog, post, authority: signer(owner), system_program: system() };
    let r = create_post_at(&mut ctx, "Hello".to_string(), "World".to_string(), Some(5));
    assert_eq!(r, Err(Error::Constraint(ConstraintError::AddressMismatch)));
    assert_eq!(ctx.blog.data.unwrap().post_count, 0);
}

#[test]
fn create_refuses_a_container_that_names_another_owner() {
    let owner = address(1);
    let mut ctx = create_ctx(owner, 0);
    ctx.blog.data = Some(Blog { authority: address(2), post_count: 0 });
    let r = create_post_at(&mut ctx, "Hello".to_string(), "World".to_string(), Some(5));
    assert_eq!(r, Err(Error::Constraint(ConstraintError::FieldMismatch)));
    assert_eq!(ctx.post.data, None);
}

#[test]
fn create_refuses_a_container_at_another_address() {
    let owner = address(1);
    let mut ctx = create_ctx(owner, 0);
    ctx.blog.key = blog_key(address(2));
    let r = create_post_at(&mut ctx, "Hello".to_string(), "World".to_string(), Some(5));
    assert_eq!(r, Err(Error::Constraint(ConstraintError::AddressMismatch)));
}

#[test]
fn create_refuses_a_child_slot_with_another_number() {
    let owner = address(1);
    let mut ctx = create_ctx(owner, 2);
    ctx.post.key = post_key(ctx.blog.key, 1);
    let r = create_post_at(&mut ctx, "Hello".to_string(), "World".to_string(), Some(5));
    assert_eq!(r, Err(Error::Constraint(ConstraintError::AddressMismatch)));
    assert_eq!(ctx.blog.data.unwrap().post_count, 2);
}

#[test]
fn create_refuses_an_occupied_child_slot() {
    let owner = address(1);
    let mut ctx = create_ctx(owner, 0);
    ctx.post = post_of(owner, 0);
    let r = create_post_at(&mut ctx, "Hello".to_string(), "World".to_string(), Some(5));
    assert_eq!(r, Err(Error::Constraint(ConstraintError::AlreadyInitialized)));
}

#[test]
fn create_needs_writable_accounts() {
    let owner = address(1);
    let mut ctx = create_ctx(owner, 0);
    ctx.blog.is_writable = false;
    let r = create_post_at(&mut ctx, "Hello".to_string(), "World".to_string(), Some(5));
    assert_eq!(r, Err(Error::Constraint(ConstraintError::NotWritable)));
}

#[test]
fn update_replaces_title_body_and_time() {
    let owner = address(1);
    let mut ctx = update_ctx(owner, 4);
    let r = update_post_at(&mut ctx, "Hi".to_string(), "World!".to_string(), Some(99));
    assert_eq!(r, Ok(()));
    assert_eq!(
        ctx.post.data,
        Some(BlogPost {
            author: owner,
            title: "Hi".to_string(),
            content: "World!".to_string(),
            post_id: 4,
            timestamp: 99,
        })
    );
    assert_eq!(ctx.blog, blog_of(owner, 5));
}

#[test]
fn update_by_another_identity_is_unauthorized() {
    let owner = address(1);
    let other = address(2);
    let mut ctx = update_ctx(owner, 0);
    ctx.author = signer(other);
    let before = ctx.clone();
    let r = update_post_at(&mut ctx, "Hi".to_string(), "World!".to_string(), Some(99));
    assert_eq!(r, Err(Error::Program(ErrorCode::UnauthorizedUpdate)));
    assert_eq!(ctx, before);
    ctx.blog = blog_of(other, 1);
    let r = update_post_at(&mut ctx, "Hi".to_string(), "World!".to_string(), Some(99));
    assert_eq!(r, Err(Error::Program(ErrorCode::UnauthorizedUpdate)));
}

#[test]
fn update_rejects_bad_fields_and_changes_nothing() {
    let owner = address(1);
    let mut ctx = update_ctx(owner, 0);
    let before = ctx.clone();
    let r = update_post_at(&mut ctx, "t".repeat(101), "World!".to_string(), Some(99));
    assert_eq!(r, Err(Error::Program(ErrorCode::TitleTooLong)));
    let r = update_post_at(&mut ctx, "Hi".to_string(), String::new(), Some(99));
    assert_eq!(r, Err(Error::Program(ErrorCode::ContentEmpty)));
    assert_eq!(ctx, before);
}

#[test]
fn update_needs_the_child_to_exist() {
    let owner = address(1);
    let mut ctx = update_ctx(owner, 0);
    ctx.post.data = None;
    let r = update_post_at(&mut ctx, "Hi".to_string(), "World!".to_string(), Some(99));
    assert_eq!(r, Err(Error::Constraint(ConstraintError::NotInitialized)));
}

#[test]
fn update_refuses_a_child_at_another_address() {
    let owner = address(1);
    let mut ctx = update_ctx(owner, 0);
    ctx.post.key = post_key(ctx.blog.key, 1);
    let r = update_post_at(&mut ctx, "Hi".to_string(), "World!".to_string(), Some(99));
    assert_eq!(r, Err(Error::Constraint(ConstraintError::AddressMismatch)));
}

#[test]
fn update_reads_the_clock_of_the_runtime() {
    let owner = address(1);
    let mut ctx = update_ctx(owner, 0);
    let before = ctx.clone();
    let r = update_post(&mut ctx, "Hi".to_string(), "World!".to_string());
    assert_eq!(r, Err(Error::ClockUnavailable));
    assert_eq!(ctx, before);
}

#[test]
fn delete_removes_the_child_and_refunds_the_author() {
    let owner = address(1);
    let mut ctx = delete_ctx(owner, 0);
    assert_eq!(delete_post(&mut ctx), Ok(()));
    assert_eq!(ctx.post.data, None);
    assert_eq!(ctx.post.lamports, 0);
    assert_eq!(ctx.author.lamports, 1_000_700);
    assert_eq!(ctx.blog, blog_of(owner, 1));
}

#[test]
fn delete_by_another_identity_is_unauthorized() {
    let owner = address(1);
    let mut ctx = delete_ctx(owner, 0);
    ctx.author = signer(address(2));
    let before = ctx.clone();
    assert_eq!(delete_post(&mut ctx), Err(Error::Program(ErrorCode::UnauthorizedDelete)));
    assert_eq!(ctx, before);
}

#[test]
fn delete_needs_a_signature() {
    let owner = address(1);
    let mut ctx = delete_ctx(owner, 0);
    ctx.author.is_signer = false;
    assert_eq!(delete_post(&mut ctx), Err(Error::Constraint(ConstraintError::NotSigner)));
    assert!(ctx.post.data.is_some());
}

#[test]
fn delete_of_a_missing_child_fails() {
    let owner = address(1);
    let mut ctx = delete_ctx(owner, 0);
    ctx.post.data = None;
    assert_eq!(delete_post(&mut ctx), Err(Error::Constraint(ConstraintError::NotInitialized)));
}

#[test]
fn delete_fails_when_the_refund_does_not_fit() {
    let owner = address(1);
    let mut ctx = delete_ctx(owner, 0);
    ctx.author.lamports = u64::MAX - 699;
    let before = ctx.clone();
    assert_eq!(delete_post(&mut ctx), Err(Error::Program(ErrorCode::MathOverflow)));
    assert_eq!(ctx, before);
    ctx.author.lamports = u64::MAX - 700;
    assert_eq!(delete_post(&mut ctx), Ok(()));
    assert_eq!(ctx.author.lamports, u64::MAX);
}

#[test]
fn a_child_lives_from_creation_to_deletion() {
    let owner = address(1);
    let mut init = init_ctx(owner);
    assert_eq!(initialize_blog(&mut init), Ok(()));

    let slot = vacant(post_key(init.blog.key, 0));
    let mut create = CreatePost {
        blog: init.blog,
        post: slot,
        authority: init.authority,
        system_program: init.system_program,
    };
    let r = create_post_at(&mut create, "Hello".to_string(), "World".to_string(), Some(1));
    assert_eq!(r, Ok(()));
    assert_eq!(create.post.data.as_ref().unwrap().post_id, 0);

    let mut update = UpdatePost { post: create.post, blog: create.blog, author: create.authority };
    let r = update_post_at(&mut update, "Hi".to_string(), "World!".to_string(), Some(2));
    assert_eq!(r, Ok(()));
    let record = update.post.data.clone().unwrap();
    assert_eq!(record.post_id, 0);
    assert_eq!(record.title, "Hi");
    assert_eq!(record.content, "World!");

    let mut delete = DeletePost { post: update.post, blog: update.blog, author: update.author };
    assert_eq!(delete_post(&mut delete), Ok(()));
    assert_eq!(delete.post.data, None);
    assert_eq!(delete.blog.data, Some(Blog { authority: owner, post_count: 1 }));

    let mut again = CreatePost {
        blog: delete.blog,
        post: delete.post,
        authority: delete.author,
        system_program: system(),
    };
    let r = create_post_at(&mut again, "Hello".to_string(), "World".to_string(), Some(3));
    assert_eq!(r, Err(Error::Constraint(ConstraintError::AddressMismatch)));
}

#[test]
fn create_lists_its_requirements_in_order() {
    let owner = address(1);
    let ctx = create_ctx(owner, 3);
    let list = ctx.collect_requirements();
    assert_eq!(
        list,
        vec![
            Requirement::Initialized { account: ctx.blog.key, present: true },
            Requirement::Signer { account: owner, is_signer: true },
            Requirement::SystemProgram { supplied: address(0), executable: true },
            Requirement::AddressMatch {
                supplied: ctx.post.key,
                derivation: Derivation::Child { container: ctx.blog.key, sequence_id: 3 },
            },
            Requirement::Vacant { account: ctx.post.key, present: false },
            Requirement::AddressMatch {
                supplied: ctx.blog.key,
                derivation: Derivation::Container { owner },
            },
            Requirement::Writable { account: ctx.blog.key, is_writable: true },
            Requirement::FieldEquals { field: owner, expected: owner, error: None },
            Requirement::Writable { account: owner, is_writable: true },
        ]
    );
    assert_eq!(check_all(&list), Ok(()));

    let mut missing = create_ctx(owner, 3);
    missing.blog.data = None;
    assert_eq!(missing.collect_requirements().len(), 1);
}

#[test]
fn create_looks_at_addresses_before_writability() {
    let owner = address(1);
    let mut ctx = create_ctx(owner, 2);
    ctx.blog.is_writable = false;
    ctx.post.key = post_key(ctx.blog.key, 1);
    let r = create_post_at(&mut ctx, "Hello".to_string(), "World".to_string(), Some(5));
    assert_eq!(r, Err(Error::Constraint(ConstraintError::AddressMismatch)));

    let mut ctx = create_ctx(owner, 2);
    ctx.blog.is_writable = false;
    ctx.blog.data = Some(Blog { authority: address(2), post_count: 2 });
    let r = create_post_at(&mut ctx, "Hello".to_string(), "World".to_string(), Some(5));
    assert_eq!(r, Err(Error::Constraint(ConstraintError::NotWritable)));
}

#[test]
fn a_misplaced_child_is_not_updated_even_when_read_only() {
    let owner = address(1);
    let mut ctx = update_ctx(owner, 0);
    ctx.post.key = post_key(blog_key(address(2)), 0);
    ctx.post.is_writable = false;
    let before = ctx.clone();
    let r = update_post_at(&mut ctx, "Hi".to_string(), "World!".to_string(), Some(99));
    assert_eq!(r, Err(Error::Constraint(ConstraintError::AddressMismatch)));
    assert_eq!(ctx, before);

    let mut ctx = delete_ctx(owner, 0);
    ctx.post.key = post_key(blog_key(address(2)), 0);
    ctx.post.is_writable = false;
    ctx.author.is_writable = false;
    let before = ctx.clone();
    assert_eq!(delete_post(&mut ctx), Err(Error::Constraint(ConstraintError::AddressMismatch)));
    assert_eq!(ctx, before);
}

#[test]
fn a_read_only_child_at_its_address_is_not_updated() {
    let owner = address(1);
    let mut ctx = update_ctx(owner, 0);
    ctx.post.is_writable = false;
    ctx.blog.key = blog_key(address(2));
    ctx.post.key = post_key(ctx.blog.key, 0);
    let r = update_post_at(&mut ctx, "Hi".to_string(), "World!".to_string(), Some(99));
    assert_eq!(r, Err(Error::Constraint(ConstraintError::NotWritable)));
}

#[test]
fn update_and_delete_list_their_requirements_in_order() {
    let owner = address(1);
    let other = address(2);
    let mut update = update_ctx(owner, 0);
    update.author = signer(other);
    let list = update.collect_requirements();
    assert_eq!(
        list,
        vec![
            Requirement::Initialized { account: update.post.key, present: true },
            Requirement::Signer { account: other, is_signer: true },
            Requirement::FieldEquals {
                field: owner,
                expected: other,
                error: Some(ErrorCode::UnauthorizedUpdate),
            },
            Requirement::Initialized { account: update.blog.key, present: true },
            Requirement::AddressMatch {
                supplied: update.post.key,
                derivation: Derivation::Child { container: update.blog.key, sequence_id: 0 },
            },
            Requirement::Writable { account: update.post.key, is_writable: true },
            Requirement::AddressMatch {
                supplied: update.blog.key,
                derivation: Derivation::Container { owner: other },
            },
            Requirement::Writable { account: other, is_writable: true },
        ]
    );

    let mut delete = delete_ctx(owner, 0);
    delete.author = signer(other);
    let list = delete.collect_requirements();
    assert_eq!(list.len(), 8);
    assert_eq!(list[2].check(), Err(Error::Program(ErrorCode::UnauthorizedDelete)));

    delete.post.data = None;
    assert_eq!(delete.collect_requirements().len(), 1);
}
