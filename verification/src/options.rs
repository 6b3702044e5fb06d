//! The formatter's switches and the argument list they produce.

use std::path::PathBuf;
use vstd::prelude::*;
use vstd::string::*;

verus! {

/// `std::path::PathBuf`, carried through as it is: nothing here looks into a
/// path.
#[verifier::external_type_specification]
#[verifier::external_body]
pub struct ExPathBuf(PathBuf);

/// `PathBuf::clone` of std, not verified here. The contract claims that the
/// copy is the same path.
pub assume_specification[ <PathBuf as Clone>::clone ](path: &PathBuf) -> (copy: PathBuf)
    ensures
        copy == *path,
;

/// One argument of the formatter's command line.
#[derive(Clone, Debug, PartialEq, Eq)]
pub enum Argument {
    /// The file to format, handed on exactly as it was chosen.
    Path(PathBuf),
    /// A switch, written on the command line as its text.
    Flag(FormatFlag),
}

/// One switch of the formatter's command line.
#[derive(Clone, Copy, Debug, PartialEq, Eq, Structural)]
pub enum FormatFlag {
    NoSimplify,
    Minify,
    LuaCalls,
    SolveRecordTable,
    SolveListTable,
}

impl FormatFlag {
    /// The text of the switch as the formatter expects it.
    pub open spec fn text(self) -> Seq<char> {
        match self {
            FormatFlag::NoSimplify => "--nosimplify"@,
            FormatFlag::Minify => "--minify"@,
            FormatFlag::LuaCalls => "--lua_calls"@,
            FormatFlag::SolveRecordTable => "--solve_record_table"@,
            FormatFlag::SolveListTable => "--solve_list_table"@,
        }
    }

    /// The place of the switch in the declaration order, from 0.
    pub open spec fn position(self) -> int {
        match self {
            FormatFlag::NoSimplify => 0,
            FormatFlag::Minify => 1,
            FormatFlag::LuaCalls => 2,
            FormatFlag::SolveRecordTable => 3,
            FormatFlag::SolveListTable => 4,
        }
    }

    pub fn as_str(self) -> (s: &'static str)
        ensures
            s@ == self.text(),
    {
        match self {
            FormatFlag::NoSimplify => "--nosimplify",
            FormatFlag::Minify => "--minify",
            FormatFlag::LuaCalls => "--lua_calls",
            FormatFlag::SolveRecordTable => "--solve_record_table",
            FormatFlag::SolveListTable => "--solve_list_table",
        }
    }
}

/// The five independent switches, each on or off.
#[derive(Clone, Copy, Debug, PartialEq, Eq, Structural)]
pub struct FormatOptions {
    pub no_simplify: bool,
    pub minify: bool,
    pub lua_calls: bool,
    pub solve_record_table: bool,
    pub solve_list_table: bool,
}

/// The one-element sequence of `flag` where `on` holds, the empty one otherwise.
pub open spec fn flag_when(on: bool, flag: FormatFlag) -> Seq<FormatFlag> {
    if on {
        seq![flag]
    } else {
        Seq::empty()
    }
}

/// The argument list for formatting `input_path` under `options`: the path,
/// then each enabled switch.
pub open spec fn arguments(input_path: PathBuf, options: FormatOptions) -> Seq<Argument> {
    seq![Argument::Path(input_path)] + options.enabled_flags().map_values(
        |f: FormatFlag| Argument::Flag(f),
    )
}

impl FormatOptions {
    /// Whether `flag` is switched on.
    pub open spec fn enabled(self, flag: FormatFlag) -> bool {
        match flag {
            FormatFlag::NoSimplify => self.no_simplify,
            FormatFlag::Minify => self.minify,
            FormatFlag::LuaCalls => self.lua_calls,
            FormatFlag::SolveRecordTable => self.solve_record_table,
            FormatFlag::SolveListTable => self.solve_list_table,
        }
    }

    /// These options with `flag` flipped and the others as they are.
    pub open spec fn toggled(self, flag: FormatFlag) -> FormatOptions {
        match flag {
            FormatFlag::NoSimplify => FormatOptions { no_simplify: !self.no_simplify, ..self },
            FormatFlag::Minify => FormatOptions { minify: !self.minify, ..self },
            FormatFlag::LuaCalls => FormatOptions { lua_calls: !self.lua_calls, ..self },
            FormatFlag::SolveRecordTable => FormatOptions {
                solve_record_table: !self.solve_record_table,
                ..self
            },
            FormatFlag::SolveListTable => FormatOptions {
                solve_list_table: !self.solve_list_table,
                ..self
            },
        }
    }

    /// The enabled switches in declaration order.
    pub open spec fn enabled_flags(self) -> Seq<FormatFlag> {
        flag_when(self.no_simplify, FormatFlag::NoSimplify)
            + flag_when(self.minify, FormatFlag::Minify)
            + flag_when(self.lua_calls, FormatFlag::LuaCalls)
            + flag_when(self.solve_record_table, FormatFlag::SolveRecordTable)
            + flag_when(self.solve_list_table, FormatFlag::SolveListTable)
    }

    /// The options with every switch off.
    pub open spec fn all_off() -> FormatOptions {
        FormatOptions {
            no_simplify: false,
            minify: false,
            lua_calls: false,
            solve_record_table: false,
            solve_list_table: false,
        }
    }

    /// All switches off.
    pub fn new() -> (options: FormatOptions)
        ensures
            options == FormatOptions::all_off(),
    {
        FormatOptions {
            no_simplify: false,
            minify: false,
            lua_calls: false,
            solve_record_table: false,
            solve_list_table: false,
        }
    }

    pub fn is_enabled(&self, flag: FormatFlag) -> (on: bool)
        ensures
            on == self.enabled(flag),
    {
        match flag {
            FormatFlag::NoSimplify => self.no_simplify,
            FormatFlag::Minify => self.minify,
            FormatFlag::LuaCalls => self.lua_calls,
            FormatFlag::SolveRecordTable => self.solve_record_table,
            FormatFlag::SolveListTable => self.solve_list_table,
        }
    }

    /// Flips `flag` and leaves the other switches as they are.
    pub fn toggle(&mut self, flag: FormatFlag)
        ensures
            *final(self) == old(self).toggled(flag),
    {
        match flag {
            FormatFlag::NoSimplify => { self.no_simplify = !self.no_simplify; },
            FormatFlag::Minify => { self.minify = !self.minify; },
            FormatFlag::LuaCalls => { self.lua_calls = !self.lua_calls; },
            FormatFlag::SolveRecordTable => { self.solve_record_table = !self.solve_record_table; },
            FormatFlag::SolveListTable => { self.solve_list_table = !self.solve_list_table; },
        }
    }

    /// The enabled switches in declaration order.
    pub fn flags(&self) -> (flags: Vec<FormatFlag>)
        ensures
            flags@ == self.enabled_flags(),
    {
        let mut flags: Vec<FormatFlag> = Vec::new();
        if self.no_simplify {
            flags.push(FormatFlag::NoSimplify);
        }
        if self.minify {
            flags.push(FormatFlag::Minify);
        }
        if self.lua_calls {
            flags.push(FormatFlag::LuaCalls);
        }
        if self.solve_record_table {
            flags.push(FormatFlag::SolveRecordTable);
        }
        if self.solve_list_table {
            flags.push(FormatFlag::SolveListTable);
        }
        assert(flags@ =~= self.enabled_flags());
        flags
    }
}

/// Builds the formatter's argument list: the input path first, then one
/// switch for each enabled option, in declaration order.
pub fn build_args(input_path: PathBuf, options: &FormatOptions) -> (args: Vec<Argument>)
    ensures
        args@ == arguments(input_path, *options),
{
    let flags = options.flags();
    let mut args: Vec<Argument> = Vec::new();
    args.push(Argument::Path(input_path));
    let mut i: usize = 0;
    while i < flags.len()
        invariant
            i <= flags.len(),
            flags@ == options.enabled_flags(),
            args.len() == i + 1,
            args@[0] == Argument::Path(input_path),
            forall|k: int| 0 <= k < i ==> #[trigger] args@[k + 1] == Argument::Flag(flags@[k]),
        decreases flags.len() - i,
    {
        args.push(Argument::Flag(flags[i]));
        i += 1;
    }
    assert(args@ =~= arguments(input_path, *options));
    args
}

/// A start of the formatter: the program and its arguments.
#[derive(Clone, Debug, PartialEq, Eq)]
pub struct Invocation {
    pub program: String,
    pub args: Vec<Argument>,
}

pub struct InvocationView {
    pub program: Seq<char>,
    pub args: Seq<Argument>,
}

impl View for Invocation {
    type V = InvocationView;

    open spec fn view(&self) -> InvocationView {
        InvocationView { program: self.program@, args: self.args@ }
    }
}

/// The start of `tool` on `input_path` under `options`.
pub open spec fn invocation(
    tool: Seq<char>,
    input_path: PathBuf,
    options: FormatOptions,
) -> InvocationView {
    InvocationView { program: tool, args: arguments(input_path, options) }
}

/// Describes the start of `tool` on `input_path` under `options`.
pub fn invoke(tool: &str, input_path: &PathBuf, options: &FormatOptions) -> (call: Invocation)
    ensures
        call@ == invocation(tool@, *input_path, *options),
{
    Invocation {
        program: String::from_str(tool),
        args: build_args(input_path.clone(), options),
    }
}

/// Whether `flags` stands in strictly ascending declaration order.
pub open spec fn ascending(flags: Seq<FormatFlag>) -> bool {
    forall|i: int, j: int|
        0 <= i < j < flags.len() ==> (#[trigger] flags[i]).position() < (#[trigger] flags[j]).position()
}

/// Whether every switch of `flags` is declared before `next`.
spec fn all_before(flags: Seq<FormatFlag>, next: FormatFlag) -> bool {
    forall|i: int| 0 <= i < flags.len() ==> (#[trigger] flags[i]).position() < next.position()
}

/// The enabled switches are strictly ascending in declaration order, so none
/// occurs twice, and a switch is among them exactly if it is on.
pub proof fn lemma_enabled_flags_exact(options: FormatOptions)
    ensures
        ascending(options.enabled_flags()),
        forall|flag: FormatFlag| #[trigger]
            options.enabled_flags().contains(flag) <==> options.enabled(flag),
{
    let none = Seq::<FormatFlag>::empty();
    let a = none + flag_when(options.no_simplify, FormatFlag::NoSimplify);
    let b = a + flag_when(options.minify, FormatFlag::Minify);
    let c = b + flag_when(options.lua_calls, FormatFlag::LuaCalls);
    let d = c + flag_when(options.solve_record_table, FormatFlag::SolveRecordTable);
    let e = d + flag_when(options.solve_list_table, FormatFlag::SolveListTable);
    lemma_ascending_extend(none, options.no_simplify, FormatFlag::NoSimplify);
    lemma_ascending_extend(a, options.minify, FormatFlag::Minify);
    lemma_ascending_extend(b, options.lua_calls, FormatFlag::LuaCalls);
    lemma_ascending_extend(c, options.solve_record_table, FormatFlag::SolveRecordTable);
    lemma_ascending_extend(d, options.solve_list_table, FormatFlag::SolveListTable);
    assert(a =~= flag_when(options.no_simplify, FormatFlag::NoSimplify));
    assert(e == options.enabled_flags());
    assert forall|flag: FormatFlag| #[trigger]
        e.contains(flag) <==> options.enabled(flag) by {
        assert(flag.position() < 5);
    }
}

/// Appending a switch that is declared after all of `flags` keeps the order
/// strict and adds that switch alone.
proof fn lemma_ascending_extend(flags: Seq<FormatFlag>, on: bool, next: FormatFlag)
    requires
        ascending(flags),
        all_before(flags, next),
    ensures
        ascending(flags + flag_when(on, next)),
        forall|later: FormatFlag|
            next.position() < later.position() ==> all_before(flags + flag_when(on, next), later),
        forall|flag: FormatFlag| #[trigger]
            (flags + flag_when(on, next)).contains(flag) <==> (flags.contains(flag) || (on && flag
                == next)),
{
    let out = flags + flag_when(on, next);
    assert forall|flag: FormatFlag| #[trigger]
        out.contains(flag) <==> (flags.contains(flag) || (on && flag == next)) by {
        if flags.contains(flag) {
            let i = choose|i: int| 0 <= i < flags.len() && flags[i] == flag;
            assert(out[i] == flag);
        }
        if on && flag == next {
            assert(out[flags.len() as int] == flag);
        }
    }
}

/// No two switches share a text, so the argument list tells which switches
/// are on.
pub proof fn lemma_flag_texts_distinct(a: FormatFlag, b: FormatFlag)
    requires
        a.text() == b.text(),
    ensures
        a == b,
{
    reveal_strlit("--nosimplify");
    reveal_strlit("--minify");
    reveal_strlit("--lua_calls");
    reveal_strlit("--solve_record_table");
    reveal_strlit("--solve_list_table");
    assert(FormatFlag::NoSimplify.text().len() == 12);
    assert(FormatFlag::Minify.text().len() == 8);
    assert(FormatFlag::LuaCalls.text().len() == 11);
    assert(FormatFlag::SolveRecordTable.text().len() == 20);
    assert(FormatFlag::SolveListTable.text().len() == 18);
}

/// The argument list is the input path followed by the enabled switches,
/// one argument for each.
pub proof fn lemma_arguments_shape(input_path: PathBuf, options: FormatOptions)
    ensures
        arguments(input_path, options).len() == 1 + options.enabled_flags().len(),
        arguments(input_path, options)[0] == Argument::Path(input_path),
        forall|i: int|
            0 <= i < options.enabled_flags().len() ==> #[trigger] arguments(
                input_path,
                options,
            )[i + 1] == Argument::Flag(options.enabled_flags()[i]),
{
}

} // verus!
