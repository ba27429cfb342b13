//! What a compiler driver needs around the walk: the rule that a program with
//! compile errors is not walked, the outcome of a run, and the argument list
//! handed to the compiler.

use vstd::prelude::*;
use crate::hir::Crate;
use crate::syntax::{admits_nodes, catalog, records, FunctionMemo, SyntaxVisitor, TraversalState};

verus! {

/// Why a run produced no list of records.
#[derive(Clone, Copy, Debug, PartialEq, Eq)]
pub enum Failure {
    /// The program did not compile; the walk was not started.
    CompileErrors,
    /// The walk would meet a block with a push or pop marking while a record
    /// is open.
    UnsupportedBlock,
}

impl Failure {
    /// The text that tells the two failures apart.
    pub fn message(&self) -> (text: &'static str)
        ensures
            *self == Failure::CompileErrors ==> text@ == "aborting due to compile errors"@,
            *self == Failure::UnsupportedBlock ==> text@ == "push/pop unsafe should not exist"@,
    {
        match self {
            Failure::CompileErrors => "aborting due to compile errors",
            Failure::UnsupportedBlock => "push/pop unsafe should not exist",
        }
    }
}

/// What a run over a unit gives: the unit's records where the walk is
/// admitted, and the failure where it is not.
pub open spec fn analysis_of(krate: Crate, result: Result<Vec<FunctionMemo>, Failure>) -> bool {
    if admits_nodes(krate.items@, TraversalState::empty()) {
        result matches Ok(memos) && records(memos@) == catalog(krate)
    } else {
        result == Err::<Vec<FunctionMemo>, Failure>(Failure::UnsupportedBlock)
    }
}

/// Walks a unit with a fresh visitor and returns its records in declaration
/// order, or the failure if the unit holds a block that the walk does not
/// know while a record is open.
pub fn analyze(krate: &Crate) -> (result: Result<Vec<FunctionMemo>, Failure>)
    ensures
        analysis_of(*krate, result),
{
    let mut visitor = SyntaxVisitor::new(krate);
    if visitor.accepts_unit() {
        visitor.collect_functions();
        Ok(visitor.into_vec())
    } else {
        Err(Failure::UnsupportedBlock)
    }
}

/// The exit code of the process: 0 after a run that gave its records, 1 after
/// a run that failed, whichever failure it was.
pub fn exit_code(failed: bool) -> (code: i32)
    ensures
        code == (if failed { 1i32 } else { 0i32 }),
{
    if failed {
        1
    } else {
        0
    }
}

/// The callbacks that the compiler driver calls.
pub struct CruxCompilerCalls {}

impl CruxCompilerCalls {
    /// The callbacks in their initial state; they hold nothing.
    pub fn new() -> (calls: CruxCompilerCalls)
        ensures
            calls == (CruxCompilerCalls {  }),
    {
        CruxCompilerCalls {  }
    }

    /// Called when the compiler has finished its analysis of a unit. Where
    /// the compiler reported errors the walk is not started; otherwise the
    /// unit is analyzed.
    pub fn after_analysis(&mut self, has_errors: bool, krate: &Crate) -> (result: Result<
        Vec<FunctionMemo>,
        Failure,
    >)
        ensures
            has_errors ==> result == Err::<Vec<FunctionMemo>, Failure>(Failure::CompileErrors),
            !has_errors ==> analysis_of(*krate, result),
            *final(self) == *old(self),
    {
        if has_errors {
            Err(Failure::CompileErrors)
        } else {
            analyze(krate)
        }
    }
}

/// The views of a list of strings.
pub open spec fn texts(strings: Seq<String>) -> Seq<Seq<char>> {
    strings.map_values(|s: String| s@)
}

/// The argument list for the compiler: the arguments as given, followed by
/// `--sysroot` and the path where a path is known and no argument is
/// `--sysroot`; and in that list, the default flags right after the first
/// argument, the name of the binary.
pub open spec fn rustc_arguments_of(
    args: Seq<Seq<char>>,
    sysroot: Option<Seq<char>>,
    default_args: Seq<Seq<char>>,
) -> Seq<Seq<char>> {
    let given = match sysroot {
        Some(path) if !args.contains("--sysroot"@) => args.push("--sysroot"@).push(path),
        _ => args,
    };
    given.take(1) + default_args + given.skip(1)
}

/// Whether one of the strings is the given one.
fn contains(strings: &Vec<String>, wanted: &String) -> (found: bool)
    ensures
        found == texts(strings@).contains(wanted@),
{
    let mut i: usize = 0;
    while i < strings.len()
        invariant
            i <= strings.len(),
            forall|j: int| 0 <= j < i ==> texts(strings@)[j] != wanted@,
        decreases strings.len() - i,
    {
        if strings[i] == *wanted {
            assert(texts(strings@)[i as int] == wanted@);
            return true;
        }
        i += 1;
    }
    false
}

/// Builds the argument list for the compiler from the arguments of the
/// process, the sysroot found at build time and the default flags.
pub fn rustc_arguments(
    args: Vec<String>,
    sysroot: Option<String>,
    default_args: &Vec<String>,
) -> (rustc_args: Vec<String>)
    requires
        args.len() >= 1,
    ensures
        texts(rustc_args@) == rustc_arguments_of(
            texts(args@),
            match sysroot {
                Some(path) => Some(path@),
                None => None,
            },
            texts(default_args@),
        ),
{
    let mut rustc_args = args;
    if let Some(path) = sysroot {
        let sysroot_flag = "--sysroot".to_owned();
        if !contains(&rustc_args, &sysroot_flag) {
            rustc_args.push(sysroot_flag);
            rustc_args.push(path);
            assert(texts(rustc_args@) =~= texts(args@).push("--sysroot"@).push(path@));
        }
    }
    let ghost given = texts(rustc_args@);
    let mut i: usize = 0;
    assert(texts(rustc_args@) =~= given.take(1) + texts(default_args@).take(0) + given.skip(1));
    while i < default_args.len()
        invariant
            i <= default_args.len(),
            given.len() >= 1,
            rustc_args.len() == given.len() + i,
            texts(rustc_args@) == given.take(1) + texts(default_args@).take(i as int) + given.skip(
                1,
            ),
        decreases default_args.len() - i,
    {
        let ghost before = rustc_args@;
        let flag = default_args[i].clone();
        rustc_args.insert(i + 1, flag);
        assert(texts(rustc_args@) =~= texts(before).insert(i as int + 1, flag@));
        assert(texts(rustc_args@) =~= given.take(1) + texts(default_args@).take(i as int + 1)
            + given.skip(1));
        i += 1;
    }
    assert(texts(default_args@).take(i as int) =~= texts(default_args@));
    rustc_args
}

} // verus!
