use crux::driver::{analyze, exit_code, rustc_arguments, CruxCompilerCalls, Failure};
use crux::hir::{
    Abi, Block, BlockCheckMode, BodyId, Constness, Crate, FnHeader, ImplItem, ImplItemKind,
    IsAsync, Item, ItemKind, Node, TraitItem, TraitItemKind, TraitMethod, UnsafeSource, Unsafety,
};
use crux::syntax::{FunctionMemo, FunctionSignature, SyntaxVisitor};

fn header() -> FnHeader {
    FnHeader {
        unsafety: Unsafety::Normal,
        constness: Constness::NotConst,
        asyncness: IsAsync::NotAsync,
        abi: Abi::Rust,
    }
}

fn body(n: u32) -> BodyId {
    BodyId { owner: n, local_id: 1 }
}

fn block(rules: BlockCheckMode, children: Vec<Node>) -> Node {
    Node::Block(Block { rules, children })
}

fn plain(children: Vec<Node>) -> Node {
    block(BlockCheckMode::DefaultBlock, children)
}

fn unsafe_block(children: Vec<Node>) -> Node {
    block(BlockCheckMode::UnsafeBlock(UnsafeSource::UserProvided), children)
}

fn expr(children: Vec<Node>) -> Node {
    Node::Other(children)
}

fn free_fn(n: u32, children: Vec<Node>) -> Node {
    Node::Item(Item { node: ItemKind::Fn(header(), body(n)), children })
}

fn other_item(children: Vec<Node>) -> Node {
    Node::Item(Item { node: ItemKind::Other, children })
}

fn required_method() -> Node {
    Node::TraitItem(TraitItem {
        node: TraitItemKind::Method(header(), TraitMethod::Required),
        children: vec![expr(vec![])],
    })
}

fn provided_method(n: u32, children: Vec<Node>) -> Node {
    Node::TraitItem(TraitItem {
        node: TraitItemKind::Method(header(), TraitMethod::Provided(body(n))),
        children,
    })
}

fn impl_method(n: u32, children: Vec<Node>) -> Node {
    Node::ImplItem(ImplItem { node: ImplItemKind::Method(header(), body(n)), children })
}

fn summary(memos: &Vec<FunctionMemo>) -> Vec<(FunctionSignature, u32, bool)> {
    let mut out = Vec::new();
    for memo in memos {
        out.push((memo.sig(), memo.body_id().owner, memo.contains_unsafe()));
    }
    out
}

fn run(items: Vec<Node>) -> Vec<(FunctionSignature, u32, bool)> {
    let krate = Crate { items };
    let memos = analyze(&krate).expect("the unit is admitted");
    summary(&memos)
}

// fn foo() { 1 + 1; }
#[test]
fn free_function_without_unsafe() {
    let got = run(vec![free_fn(1, vec![plain(vec![expr(vec![expr(vec![]), expr(vec![])])])])]);
    assert_eq!(got, vec![(FunctionSignature::FreeFn, 1, false)]);
}

// fn bar() { unsafe { read_raw(); } }
#[test]
fn free_function_with_unsafe_block() {
    let got = run(vec![free_fn(
        1,
        vec![plain(vec![expr(vec![unsafe_block(vec![expr(vec![])])])])],
    )]);
    assert_eq!(got, vec![(FunctionSignature::FreeFn, 1, true)]);
}

// trait T { fn a(); fn b() { } }, the items listed one by one
#[test]
fn trait_with_required_and_provided_method() {
    let got = run(vec![
        other_item(vec![]),
        required_method(),
        provided_method(2, vec![plain(vec![])]),
    ]);
    assert_eq!(got, vec![(FunctionSignature::ProvidedTraitFn, 2, false)]);
}

// the same trait with its methods below the trait's own node
#[test]
fn trait_methods_below_the_trait() {
    let got = run(vec![other_item(vec![
        required_method(),
        provided_method(2, vec![plain(vec![])]),
    ])]);
    assert_eq!(got, vec![(FunctionSignature::ProvidedTraitFn, 2, false)]);
}

#[test]
fn provided_method_before_required_method() {
    let got = run(vec![provided_method(7, vec![plain(vec![])]), required_method()]);
    assert_eq!(got, vec![(FunctionSignature::ProvidedTraitFn, 7, false)]);
}

// impl S { fn m1() {} fn m2() {} }
#[test]
fn impl_block_with_two_methods() {
    let got = run(vec![
        other_item(vec![]),
        impl_method(1, vec![plain(vec![])]),
        impl_method(2, vec![plain(vec![])]),
    ]);
    assert_eq!(
        got,
        vec![(FunctionSignature::ImplFn, 1, false), (FunctionSignature::ImplFn, 2, false)]
    );
}

// fn f() { if true { loop { unsafe { x(); } } } }
#[test]
fn unsafe_block_three_levels_deep() {
    let the_loop = expr(vec![plain(vec![expr(vec![unsafe_block(vec![expr(vec![])])])])]);
    let the_if = expr(vec![expr(vec![]), plain(vec![the_loop])]);
    let got = run(vec![free_fn(1, vec![plain(vec![the_if])])]);
    assert_eq!(got, vec![(FunctionSignature::FreeFn, 1, true)]);
}

#[test]
fn empty_unit_gives_empty_list() {
    assert_eq!(run(vec![]), vec![]);
}

#[test]
fn n_free_functions_give_n_records() {
    let mut items = Vec::new();
    for n in 0..5u32 {
        items.push(free_fn(n, vec![plain(vec![])]));
        items.push(other_item(vec![]));
    }
    items.push(impl_method(9, vec![plain(vec![])]));
    let got = run(items);
    let free = got.iter().filter(|r| r.0 == FunctionSignature::FreeFn).count();
    assert_eq!(free, 5);
    assert_eq!(got.len(), 6);
}

#[test]
fn records_follow_declaration_order() {
    let got = run(vec![
        free_fn(3, vec![plain(vec![])]),
        impl_method(1, vec![unsafe_block(vec![])]),
        other_item(vec![]),
        provided_method(2, vec![plain(vec![])]),
        free_fn(0, vec![unsafe_block(vec![])]),
    ]);
    assert_eq!(
        got,
        vec![
            (FunctionSignature::FreeFn, 3, false),
            (FunctionSignature::ImplFn, 1, true),
            (FunctionSignature::ProvidedTraitFn, 2, false),
            (FunctionSignature::FreeFn, 0, true),
        ]
    );
}

#[test]
fn flag_belongs_to_the_function_that_holds_the_block() {
    let got = run(vec![
        free_fn(1, vec![plain(vec![])]),
        free_fn(2, vec![plain(vec![unsafe_block(vec![])])]),
        free_fn(3, vec![plain(vec![])]),
    ]);
    assert_eq!(
        got,
        vec![
            (FunctionSignature::FreeFn, 1, false),
            (FunctionSignature::FreeFn, 2, true),
            (FunctionSignature::FreeFn, 3, false),
        ]
    );
}

#[test]
fn compiler_generated_unsafe_block_counts() {
    let got = run(vec![free_fn(
        1,
        vec![block(BlockCheckMode::UnsafeBlock(UnsafeSource::CompilerGenerated), vec![])],
    )]);
    assert_eq!(got, vec![(FunctionSignature::FreeFn, 1, true)]);
}

#[test]
fn unsafe_block_outside_any_function_is_ignored() {
    let got = run(vec![
        unsafe_block(vec![]),
        other_item(vec![unsafe_block(vec![])]),
        free_fn(1, vec![plain(vec![])]),
    ]);
    assert_eq!(got, vec![(FunctionSignature::FreeFn, 1, false)]);
}

#[test]
fn two_walks_give_the_same_list() {
    let krate = Crate {
        items: vec![
            free_fn(1, vec![unsafe_block(vec![])]),
            impl_method(2, vec![plain(vec![])]),
        ],
    };
    let first = summary(&analyze(&krate).unwrap());
    let second = summary(&analyze(&krate).unwrap());
    assert_eq!(first, second);
    assert_eq!(
        format!("{:?}", analyze(&krate).unwrap()),
        format!("{:?}", analyze(&krate).unwrap())
    );
}

#[test]
fn header_and_body_are_copied() {
    let special = FnHeader {
        unsafety: Unsafety::Unsafe,
        constness: Constness::Const,
        asyncness: IsAsync::Async,
        abi: Abi::C,
    };
    let krate = Crate {
        items: vec![Node::Item(Item {
            node: ItemKind::Fn(special, BodyId { owner: 4, local_id: 17 }),
            children: vec![plain(vec![])],
        })],
    };
    let memos = analyze(&krate).unwrap();
    assert_eq!(memos.len(), 1);
    assert_eq!(memos[0].header(), special);
    assert_eq!(memos[0].body_id(), BodyId { owner: 4, local_id: 17 });
    assert_eq!(memos[0].sig(), FunctionSignature::FreeFn);
    assert!(!memos[0].contains_unsafe());
}

#[test]
fn new_memo_has_flag_down() {
    let memo = FunctionMemo::new(FunctionSignature::ImplFn, header(), body(5));
    assert_eq!(memo.sig(), FunctionSignature::ImplFn);
    assert_eq!(memo.header(), header());
    assert_eq!(memo.body_id(), body(5));
    assert!(!memo.contains_unsafe());
}

// A function written inside another takes the slot: the outer function gets
// no record, and the block after the inner one is not counted.
#[test]
fn nested_function_replaces_the_outer_one() {
    let inner = free_fn(2, vec![plain(vec![])]);
    let outer = free_fn(1, vec![plain(vec![inner, unsafe_block(vec![])])]);
    let got = run(vec![outer]);
    assert_eq!(got, vec![(FunctionSignature::FreeFn, 2, false)]);
}

// An item that is no function, written inside a function, closes the record.
#[test]
fn nested_item_closes_the_open_record() {
    let outer = free_fn(1, vec![plain(vec![other_item(vec![]), unsafe_block(vec![])])]);
    let got = run(vec![outer]);
    assert_eq!(got, vec![(FunctionSignature::FreeFn, 1, false)]);
}

#[test]
fn push_block_inside_function_is_refused() {
    let krate = Crate {
        items: vec![free_fn(
            1,
            vec![block(BlockCheckMode::PushUnsafeBlock(UnsafeSource::CompilerGenerated), vec![])],
        )],
    };
    assert_eq!(analyze(&krate).err(), Some(Failure::UnsupportedBlock));
    let visitor = SyntaxVisitor::new(&krate);
    assert!(!visitor.accepts_unit());
    assert!(!visitor.accepts(&krate.items[0]));
}

#[test]
fn pop_block_deep_inside_method_is_refused() {
    let krate = Crate {
        items: vec![
            free_fn(1, vec![plain(vec![])]),
            impl_method(
                2,
                vec![plain(vec![expr(vec![block(
                    BlockCheckMode::PopUnsafeBlock(UnsafeSource::UserProvided),
                    vec![],
                )])])],
            ),
        ],
    };
    assert_eq!(analyze(&krate).err(), Some(Failure::UnsupportedBlock));
}

#[test]
fn push_block_outside_any_function_is_walked_over() {
    let got = run(vec![
        block(BlockCheckMode::PushUnsafeBlock(UnsafeSource::CompilerGenerated), vec![]),
        other_item(vec![block(BlockCheckMode::PopUnsafeBlock(UnsafeSource::UserProvided), vec![])]),
        required_method(),
        free_fn(1, vec![plain(vec![])]),
    ]);
    assert_eq!(got, vec![(FunctionSignature::FreeFn, 1, false)]);
}

#[test]
fn push_block_after_nested_item_is_walked_over() {
    let outer = free_fn(
        1,
        vec![plain(vec![
            other_item(vec![]),
            block(BlockCheckMode::PushUnsafeBlock(UnsafeSource::UserProvided), vec![]),
        ])],
    );
    assert_eq!(run(vec![outer]), vec![(FunctionSignature::FreeFn, 1, false)]);
}

#[test]
fn visitor_walks_unit_and_keeps_records() {
    let krate = Crate {
        items: vec![free_fn(1, vec![unsafe_block(vec![])]), free_fn(2, vec![plain(vec![])])],
    };
    let mut visitor = SyntaxVisitor::new(&krate);
    assert!(visitor.vec().is_empty());
    assert!(visitor.accepts_unit());
    visitor.collect_functions();
    assert_eq!(
        summary(visitor.vec()),
        vec![(FunctionSignature::FreeFn, 1, true), (FunctionSignature::FreeFn, 2, false)]
    );
    visitor.collect_functions();
    assert_eq!(visitor.vec().len(), 4);
    assert_eq!(summary(&visitor.into_vec())[2], (FunctionSignature::FreeFn, 1, true));
}

#[test]
fn hooks_can_be_called_one_by_one() {
    let krate = Crate { items: vec![] };
    let item = Item { node: ItemKind::Fn(header(), body(1)), children: vec![unsafe_block(vec![])] };
    let trait_item = TraitItem {
        node: TraitItemKind::Method(header(), TraitMethod::Provided(body(2))),
        children: vec![plain(vec![])],
    };
    let no_body =
        TraitItem { node: TraitItemKind::Method(header(), TraitMethod::Required), children: vec![] };
    let constant = ImplItem { node: ImplItemKind::Other, children: vec![unsafe_block(vec![])] };
    let impl_item =
        ImplItem { node: ImplItemKind::Method(header(), body(3)), children: vec![plain(vec![])] };
    let loose = Block {
        rules: BlockCheckMode::UnsafeBlock(UnsafeSource::UserProvided),
        children: vec![],
    };
    let mut visitor = SyntaxVisitor::new(&krate);
    visitor.visit_block(&loose);
    assert!(visitor.vec().is_empty());
    visitor.visit_item(&item);
    visitor.visit_trait_item(&no_body);
    visitor.visit_trait_item(&trait_item);
    visitor.visit_impl_item(&constant);
    visitor.visit_impl_item(&impl_item);
    assert_eq!(
        summary(visitor.vec()),
        vec![
            (FunctionSignature::FreeFn, 1, true),
            (FunctionSignature::ProvidedTraitFn, 2, false),
            (FunctionSignature::ImplFn, 3, false),
        ]
    );
}

#[test]
fn compile_errors_stop_the_run() {
    let krate = Crate { items: vec![free_fn(1, vec![plain(vec![])])] };
    let mut calls = CruxCompilerCalls::new();
    let failed = calls.after_analysis(true, &krate);
    assert_eq!(failed.as_ref().err(), Some(&Failure::CompileErrors));
    assert_eq!(exit_code(failed.is_err()), 1);
    let done = calls.after_analysis(false, &krate);
    assert_eq!(summary(done.as_ref().unwrap()), vec![(FunctionSignature::FreeFn, 1, false)]);
    assert_eq!(exit_code(done.is_err()), 0);
}

#[test]
fn unsupported_block_gives_exit_code_one() {
    let krate = Crate {
        items: vec![free_fn(
            1,
            vec![block(BlockCheckMode::PopUnsafeBlock(UnsafeSource::CompilerGenerated), vec![])],
        )],
    };
    let mut calls = CruxCompilerCalls::new();
    let result = calls.after_analysis(false, &krate);
    assert_eq!(result.as_ref().err(), Some(&Failure::UnsupportedBlock));
    assert_eq!(exit_code(result.is_err()), 1);
}

#[test]
fn failure_messages_differ() {
    assert_eq!(Failure::UnsupportedBlock.message(), "push/pop unsafe should not exist");
    assert_eq!(Failure::CompileErrors.message(), "aborting due to compile errors");
}

fn strings(words: &[&str]) -> Vec<String> {
    words.iter().map(|w| w.to_string()).collect()
}

#[test]
fn default_flags_come_after_binary_name() {
    let got = rustc_arguments(
        strings(&["crux", "main.rs", "--edition", "2018"]),
        None,
        &strings(&["-Zalways-encode-mir", "--cap-lints=allow"]),
    );
    assert_eq!(
        got,
        strings(&["crux", "-Zalways-encode-mir", "--cap-lints=allow", "main.rs", "--edition", "2018"])
    );
}

#[test]
fn sysroot_is_appended_when_missing() {
    let got = rustc_arguments(
        strings(&["crux", "main.rs"]),
        Some("/opt/sysroot".to_string()),
        &strings(&["-Zx"]),
    );
    assert_eq!(got, strings(&["crux", "-Zx", "main.rs", "--sysroot", "/opt/sysroot"]));
}

#[test]
fn given_sysroot_is_kept() {
    let got = rustc_arguments(
        strings(&["crux", "--sysroot", "/mine", "main.rs"]),
        Some("/opt/sysroot".to_string()),
        &strings(&["-Zx"]),
    );
    assert_eq!(got, strings(&["crux", "-Zx", "--sysroot", "/mine", "main.rs"]));
}

#[test]
fn binary_name_alone() {
    let got = rustc_arguments(strings(&["crux"]), None, &strings(&[]));
    assert_eq!(got, strings(&["crux"]));
    let got = rustc_arguments(strings(&["crux"]), Some("/s".to_string()), &strings(&["-a", "-b"]));
    assert_eq!(got, strings(&["crux", "-a", "-b", "--sysroot", "/s"]));
}
