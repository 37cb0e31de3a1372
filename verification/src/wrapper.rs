//! The compiler interceptor.
//!
//! When the build system re-invokes this program as its compiler
//! substitute, the invocation must be forwarded to the real compiler
//! unchanged — except that stack-size emission is requested everywhere,
//! and the one invocation that compiles the runtime-support library
//! additionally emits intermediate representation and reports, over the
//! marker protocol, where its archive and intermediate-representation
//! outputs land. Everything here is the pure part: from the received
//! argument vector to the forwarded argument vector and the marker lines;
//! spawning the real compiler happens outside the library.

use vstd::prelude::*;
use vstd::string::StrSliceExecFns;
use vstd::string::StringExecFns;
use crate::errors::WrapperError;
use crate::protocol;
use crate::strutil;

verus! {

/// One `--extern` argument: a crate name, and the path after `=` if one
/// was given.
#[derive(Debug)]
pub struct ExternCrate {
    pub name: String,
    pub path: Option<String>,
}

/// What the interceptor reads out of a compiler invocation.
#[derive(Debug)]
pub struct RustcInvocation {
    /// The last `--crate-name` value.
    pub crate_name: String,
    /// The last `-C extra-filename` value, empty when none was given.
    pub extra_filename: String,
    /// The last `--out-dir` value.
    pub out_dir: Option<String>,
    /// Every `--extern` argument, in order.
    pub externs: Vec<ExternCrate>,
}

/// Spec-level parser state: the fields gathered so far.
pub struct ParseState {
    pub crate_name: Option<Seq<char>>,
    pub extra_filename: Option<Seq<char>>,
    pub out_dir: Option<Seq<char>>,
    pub externs: Seq<(Seq<char>, Option<Seq<char>>)>,
}

/// The parser state before any argument is read.
pub open spec fn init_state() -> ParseState {
    ParseState { crate_name: None, extra_filename: None, out_dir: None, externs: Seq::empty() }
}

/// Splits an argument at its first `=`: the part before it and, when one
/// occurs, the part after it.
pub open spec fn split_first_eq(a: Seq<char>) -> (Seq<char>, Option<Seq<char>>) {
    let i = strutil::first_index_of(a, '=');
    if i < 0 {
        (a, None)
    } else {
        (a.subrange(0, i), Some(a.subrange(i + 1, a.len() as int)))
    }
}

/// The crate name and optional path of one `--extern` value: an optional
/// `noprelude:` prefix is dropped, then the value splits at its first `=`.
pub open spec fn extern_entry(a: Seq<char>) -> (Seq<char>, Option<Seq<char>>) {
    let b = if strutil::starts_with(a, "noprelude:"@) {
        a.subrange("noprelude:"@.len() as int, a.len() as int)
    } else {
        a
    };
    split_first_eq(b)
}

/// How one codegen option changes the gathered extra-filename: only
/// `extra-filename` is read, and it must carry a value.
pub open spec fn codegen_step(ef: Option<Seq<char>>, a: Seq<char>) -> Result<
    Option<Seq<char>>,
    WrapperError,
> {
    let (name, val) = split_first_eq(a);
    if name == "extra-filename"@ {
        match val {
            Some(v) => Ok(Some(v)),
            None => Err(WrapperError::MissingExtraFilenameValue),
        }
    } else {
        Ok(ef)
    }
}

/// The interceptor's parse of a compiler argument vector, argument by
/// argument: `--extern`, `--crate-name` and `--out-dir` each consume the
/// following argument, a `-C` option carries its value inline or in the
/// following argument, anything else is ignored; a `--crate-name` must
/// occur.
pub open spec fn parse_args_spec(args: Seq<Seq<char>>, st: ParseState) -> Result<
    ParseState,
    WrapperError,
>
    decreases args.len(),
{
    if args.len() == 0 {
        if st.crate_name is Some {
            Ok(st)
        } else {
            Err(WrapperError::MissingCrateName)
        }
    } else {
        let a = args[0];
        if a == "--extern"@ {
            if args.len() == 1 {
                Err(WrapperError::MissingExternArg)
            } else {
                parse_args_spec(
                    args.subrange(2, args.len() as int),
                    ParseState {
                        crate_name: st.crate_name,
                        extra_filename: st.extra_filename,
                        out_dir: st.out_dir,
                        externs: st.externs.push(extern_entry(args[1])),
                    },
                )
            }
        } else if a == "--crate-name"@ {
            if args.len() == 1 {
                Err(WrapperError::MissingCrateNameArg)
            } else {
                parse_args_spec(
                    args.subrange(2, args.len() as int),
                    ParseState {
                        crate_name: Some(args[1]),
                        extra_filename: st.extra_filename,
                        out_dir: st.out_dir,
                        externs: st.externs,
                    },
                )
            }
        } else if a == "--out-dir"@ {
            if args.len() == 1 {
                Err(WrapperError::MissingOutDirArg)
            } else {
                parse_args_spec(
                    args.subrange(2, args.len() as int),
                    ParseState {
                        crate_name: st.crate_name,
                        extra_filename: st.extra_filename,
                        out_dir: Some(args[1]),
                        externs: st.externs,
                    },
                )
            }
        } else if strutil::starts_with(a, "-C"@) {
            let inline_value = a.subrange(2, a.len() as int);
            if inline_value.len() == 0 {
                if args.len() == 1 {
                    Err(WrapperError::MissingCodegenArg)
                } else {
                    match codegen_step(st.extra_filename, args[1]) {
                        Ok(ef) => parse_args_spec(
                            args.subrange(2, args.len() as int),
                            ParseState {
                                crate_name: st.crate_name,
                                extra_filename: ef,
                                out_dir: st.out_dir,
                                externs: st.externs,
                            },
                        ),
                        Err(e) => Err(e),
                    }
                }
            } else {
                match codegen_step(st.extra_filename, inline_value) {
                    Ok(ef) => parse_args_spec(
                        args.subrange(1, args.len() as int),
                        ParseState {
                            crate_name: st.crate_name,
                            extra_filename: ef,
                            out_dir: st.out_dir,
                            externs: st.externs,
                        },
                    ),
                    Err(e) => Err(e),
                }
            }
        } else {
            parse_args_spec(args.subrange(1, args.len() as int), st)
        }
    }
}

/// The model of a gathered `--extern` list.
pub open spec fn externs_model(v: Seq<ExternCrate>) -> Seq<(Seq<char>, Option<Seq<char>>)> {
    v.map(|_i: int, e: ExternCrate| (e.name@, e.path.deep_view()))
}

impl RustcInvocation {
    /// The invocation agrees with a final parser state.
    pub open spec fn matches_state(&self, st: ParseState) -> bool {
        &&& st.crate_name == Some(self.crate_name@)
        &&& self.extra_filename@ == (match st.extra_filename {
            Some(ef) => ef,
            None => Seq::<char>::empty(),
        })
        &&& self.out_dir.deep_view() == st.out_dir
        &&& externs_model(self.externs@) == st.externs
    }
}

/// Reads one `--extern` value.
fn parse_extern_entry(a: &str) -> (e: ExternCrate)
    ensures
        e.name@ == extern_entry(a@).0,
        e.path.deep_view() == extern_entry(a@).1,
{
    let noprelude = "noprelude:";
    let stripped: String = if strutil::str_starts_with(a, noprelude) {
        strutil::str_suffix_from(a, noprelude.unicode_len())
    } else {
        a.to_owned()
    };
    let b = stripped.as_str();
    match strutil::find_char(b, '=') {
        Some(p) => {
            proof {
                strutil::lemma_first_index_of(b@, '=');
            }
            let _len: usize = b.unicode_len();
            let name = b.substring_char(0, p).to_owned();
            let path = strutil::str_suffix_from(b, p + 1);
            ExternCrate { name, path: Some(path) }
        },
        None => ExternCrate { name: stripped, path: None },
    }
}

/// Applies one codegen option value to the gathered extra-filename.
fn apply_codegen(extra_filename: &mut Option<String>, a: &str) -> (r: Result<(), WrapperError>)
    ensures
        match codegen_step(old(extra_filename).deep_view(), a@) {
            Ok(ef) => r is Ok && final(extra_filename).deep_view() == ef,
            Err(e) => (r matches Err(e2) && e2 == e),
        },
{
    match strutil::find_char(a, '=') {
        Some(p) => {
            proof {
                strutil::lemma_first_index_of(a@, '=');
            }
            let _len: usize = a.unicode_len();
            let name = a.substring_char(0, p);
            if strutil::str_eq(name, "extra-filename") {
                let value = strutil::str_suffix_from(a, p + 1);
                *extra_filename = Some(value);
            }
            Ok(())
        },
        None => {
            proof {
                strutil::lemma_first_index_of(a@, '=');
            }
            if strutil::str_eq(a, "extra-filename") {
                return Err(WrapperError::MissingExtraFilenameValue);
            }
            Ok(())
        },
    }
}

/// Parses the argument vector the build system hands its compiler, exactly
/// as `parse_args_spec` states it.
pub fn parse_rustc_args(args: &Vec<String>) -> (r: Result<RustcInvocation, WrapperError>)
    ensures
        (r is Ok) == (parse_args_spec(args.deep_view(), init_state()) is Ok),
        r matches Ok(inv) ==> inv.matches_state(
            parse_args_spec(args.deep_view(), init_state())->Ok_0,
        ),
        r matches Err(e) ==> e == parse_args_spec(args.deep_view(), init_state())->Err_0,
{
    let ghost all = args.deep_view();
    let ghost goal = parse_args_spec(all, init_state());
    let mut crate_name: Option<String> = None;
    let mut extra_filename: Option<String> = None;
    let mut out_dir: Option<String> = None;
    let mut externs: Vec<ExternCrate> = Vec::new();
    let mut i: usize = 0;
    proof {
        assert(all.subrange(0, all.len() as int) =~= all);
        assert(externs_model(externs@) =~= Seq::<(Seq<char>, Option<Seq<char>>)>::empty());
    }
    while i < args.len()
        invariant
            i <= args@.len(),
            all == args.deep_view(),
            goal == parse_args_spec(all, init_state()),
            parse_args_spec(
                all.subrange(i as int, all.len() as int),
                ParseState {
                    crate_name: crate_name.deep_view(),
                    extra_filename: extra_filename.deep_view(),
                    out_dir: out_dir.deep_view(),
                    externs: externs_model(externs@),
                },
            ) == goal,
        decreases args@.len() - i,
    {
        let ghost rem = all.subrange(i as int, all.len() as int);
        let ghost st = ParseState {
            crate_name: crate_name.deep_view(),
            extra_filename: extra_filename.deep_view(),
            out_dir: out_dir.deep_view(),
            externs: externs_model(externs@),
        };
        proof {
            assert(rem[0] == all[i as int]);
            assert(all[i as int] == args@[i as int]@);
        }
        let a = &args[i];
        if strutil::str_eq(a.as_str(), "--extern") {
            if i + 1 >= args.len() {
                proof {
                    assert(rem.len() == 1);
                }
                return Err(WrapperError::MissingExternArg);
            }
            proof {
                assert(rem[1] == all[i + 1]);
            }
            let e = parse_extern_entry(args[i + 1].as_str());
            externs.push(e);
            proof {
                assert(externs_model(externs@) =~= st.externs.push(extern_entry(all[i + 1])));
                assert(rem.subrange(2, rem.len() as int) =~= all.subrange(
                    i + 2 as int,
                    all.len() as int,
                ));
            }
            i += 2;
        } else if strutil::str_eq(a.as_str(), "--crate-name") {
            if i + 1 >= args.len() {
                proof {
                    assert(rem.len() == 1);
                }
                return Err(WrapperError::MissingCrateNameArg);
            }
            proof {
                assert(rem[1] == all[i + 1]);
            }
            crate_name = Some(args[i + 1].clone());
            proof {
                assert(rem.subrange(2, rem.len() as int) =~= all.subrange(
                    i + 2 as int,
                    all.len() as int,
                ));
            }
            i += 2;
        } else if strutil::str_eq(a.as_str(), "--out-dir") {
            if i + 1 >= args.len() {
                proof {
                    assert(rem.len() == 1);
                }
                return Err(WrapperError::MissingOutDirArg);
            }
            proof {
                assert(rem[1] == all[i + 1]);
            }
            out_dir = Some(args[i + 1].clone());
            proof {
                assert(rem.subrange(2, rem.len() as int) =~= all.subrange(
                    i + 2 as int,
                    all.len() as int,
                ));
            }
            i += 2;
        } else if strutil::str_starts_with(a.as_str(), "-C") {
            let a_len = a.as_str().unicode_len();
            proof {
                reveal_strlit("-C");
            }
            if a_len == 2 {
                if i + 1 >= args.len() {
                    proof {
                        assert(rem.len() == 1);
                        assert(rem[0].subrange(2, rem[0].len() as int).len() == 0);
                    }
                    return Err(WrapperError::MissingCodegenArg);
                }
                proof {
                    assert(rem[1] == all[i + 1]);
                    assert(rem[0].subrange(2, rem[0].len() as int).len() == 0);
                }
                match apply_codegen(&mut extra_filename, args[i + 1].as_str()) {
                    Ok(_) => {},
                    Err(e) => {
                        return Err(e);
                    },
                }
                proof {
                    assert(rem.subrange(2, rem.len() as int) =~= all.subrange(
                        i + 2 as int,
                        all.len() as int,
                    ));
                }
                i += 2;
            } else {
                let inline_value = strutil::str_suffix_from(a.as_str(), 2);
                proof {
                    assert(inline_value@ == rem[0].subrange(2, rem[0].len() as int));
                    assert(inline_value@.len() > 0);
                }
                match apply_codegen(&mut extra_filename, inline_value.as_str()) {
                    Ok(_) => {},
                    Err(e) => {
                        return Err(e);
                    },
                }
                proof {
                    assert(rem.subrange(1, rem.len() as int) =~= all.subrange(
                        i + 1 as int,
                        all.len() as int,
                    ));
                }
                i += 1;
            }
        } else {
            proof {
                assert(rem.subrange(1, rem.len() as int) =~= all.subrange(
                    i + 1 as int,
                    all.len() as int,
                ));
            }
            i += 1;
        }
    }
    proof {
        assert(all.subrange(i as int, all.len() as int).len() == 0);
    }
    match crate_name {
        Some(name) => {
            let ef = match extra_filename {
                Some(ef) => ef,
                None => String::new(),
            };
            Ok(RustcInvocation { crate_name: name, extra_filename: ef, out_dir, externs })
        },
        None => Err(WrapperError::MissingCrateName),
    }
}

/// The interceptor's whole decision: the marker lines to write on the
/// diagnostic stream, and the argument vector to forward to the real
/// compiler.
#[derive(Debug)]
pub struct WrapperPlan {
    /// Marker lines, in the order they are written.
    pub marker_lines: Vec<String>,
    /// The forwarded argument vector, after the real compiler's program
    /// name.
    pub forward_args: Vec<String>,
}

/// The parsed invocation compiles the runtime-support library.
pub open spec fn is_builtins(st: ParseState) -> bool {
    st.crate_name == Some("compiler_builtins"@)
}

/// The gathered extra-filename, empty when none was given.
pub open spec fn extra_or_empty(st: ParseState) -> Seq<char> {
    match st.extra_filename {
        Some(ef) => ef,
        None => Seq::empty(),
    }
}

/// Where the runtime-support library's intermediate representation lands:
/// under the invocation's output directory, named by the crate name and
/// its extra-filename disambiguator.
pub open spec fn ll_output_path(st: ParseState) -> Seq<char> {
    st.out_dir->0 + "/"@ + st.crate_name->0 + extra_or_empty(st) + ".ll"@
}

/// The archive marker lines: one per `--extern` naming the runtime-support
/// library with a path, in order — and none for any other crate.
pub open spec fn rlib_marker_lines(externs: Seq<(Seq<char>, Option<Seq<char>>)>) -> Seq<Seq<char>>
    decreases externs.len(),
{
    if externs.len() == 0 {
        Seq::empty()
    } else {
        let prev = rlib_marker_lines(externs.drop_last());
        let last = externs.last();
        if last.0 == "compiler_builtins"@ && last.1 is Some {
            prev.push(protocol::rlib_marker() + last.1->0)
        } else {
            prev
        }
    }
}

/// Every marker line of one invocation: the archive lines, then — exactly
/// when the invocation compiles the runtime-support library itself — the
/// one intermediate-representation line.
pub open spec fn marker_lines_spec(st: ParseState) -> Seq<Seq<char>> {
    rlib_marker_lines(st.externs) + (if is_builtins(st) {
        seq![protocol::ll_marker() + ll_output_path(st)]
    } else {
        Seq::empty()
    })
}

/// The forwarded argument vector: the received one, unchanged, behind the
/// stack-size request — and, only for the runtime-support invocation, the
/// intermediate-representation request.
pub open spec fn forward_args_spec(st: ParseState, args: Seq<Seq<char>>) -> Seq<Seq<char>> {
    (if is_builtins(st) {
        seq!["--emit=llvm-ir"@]
    } else {
        Seq::empty()
    }) + seq!["-Zemit-stack-sizes"@] + args
}

/// What the interceptor does with one compiler invocation.
pub open spec fn wrapper_plan_spec(args: Seq<Seq<char>>) -> Result<
    (Seq<Seq<char>>, Seq<Seq<char>>),
    WrapperError,
> {
    match parse_args_spec(args, init_state()) {
        Err(e) => Err(e),
        Ok(st) => {
            if is_builtins(st) && st.out_dir is None {
                Err(WrapperError::MissingOutDir)
            } else {
                Ok((marker_lines_spec(st), forward_args_spec(st, args)))
            }
        },
    }
}

/// An invocation that neither compiles the runtime-support library nor
/// links it against an `--extern` path writes no marker line at all: the
/// side channel stays silent for every ordinary compilation.
pub proof fn lemma_silent_for_other_crates(st: ParseState)
    requires
        !is_builtins(st),
        forall|k: int|
            0 <= k < st.externs.len() ==> #[trigger] st.externs[k].0 != "compiler_builtins"@,
    ensures
        marker_lines_spec(st).len() == 0,
{
    lemma_rlib_lines_silent(st.externs);
}

/// No runtime-support `--extern` entry, no archive marker line.
proof fn lemma_rlib_lines_silent(externs: Seq<(Seq<char>, Option<Seq<char>>)>)
    requires
        forall|k: int| 0 <= k < externs.len() ==> #[trigger] externs[k].0 != "compiler_builtins"@,
    ensures
        rlib_marker_lines(externs).len() == 0,
    decreases externs.len(),
{
    if externs.len() > 0 {
        lemma_rlib_lines_silent(externs.drop_last());
    }
}

/// Reading the marker lines the interceptor writes for the invocation that
/// compiles the runtime-support library — linked once against its own
/// archive — yields exactly that archive path and the
/// intermediate-representation output path: the side channel is lossless.
pub proof fn lemma_markers_round_trip(st: ParseState, i: int)
    requires
        is_builtins(st),
        st.out_dir is Some,
        0 <= i < st.externs.len(),
        st.externs[i].0 == "compiler_builtins"@,
        st.externs[i].1 is Some,
        forall|k: int|
            0 <= k < st.externs.len() && k != i ==> #[trigger] st.externs[k].0
                != "compiler_builtins"@,
    ensures
        protocol::scan_model(
            protocol::MarkerPathsModel { rlib: None, ll: None },
            marker_lines_spec(st),
        ) == (protocol::MarkerPathsModel {
            rlib: Some(st.externs[i].1->0),
            ll: Some(ll_output_path(st)),
        }),
{
    let init = protocol::MarkerPathsModel { rlib: None, ll: None };
    let rlib_lines = rlib_marker_lines(st.externs);
    let ll_line = protocol::ll_marker() + ll_output_path(st);
    assert(marker_lines_spec(st) == rlib_lines + seq![ll_line]);
    lemma_scan_rlib_lines(init, st.externs, i);
    assert((rlib_lines + seq![ll_line]).drop_last() =~= rlib_lines);
    assert((rlib_lines + seq![ll_line]).last() == ll_line);
    assert(ll_line.subrange(0, protocol::ll_marker().len() as int) =~= protocol::ll_marker());
    protocol::lemma_markers_distinct(ll_line);
    assert(protocol::marker_suffix(ll_line, protocol::ll_marker()) =~= ll_output_path(st));
}

/// Scanning the archive marker lines of an `--extern` list with exactly one
/// runtime-support entry, carrying a path, stores exactly that path and
/// touches nothing else.
proof fn lemma_scan_rlib_lines(
    m: protocol::MarkerPathsModel,
    externs: Seq<(Seq<char>, Option<Seq<char>>)>,
    i: int,
)
    requires
        0 <= i < externs.len(),
        externs[i].0 == "compiler_builtins"@,
        externs[i].1 is Some,
        forall|k: int|
            0 <= k < externs.len() && k != i ==> #[trigger] externs[k].0 != "compiler_builtins"@,
    ensures
        protocol::scan_model(m, rlib_marker_lines(externs)) == (protocol::MarkerPathsModel {
            rlib: Some(externs[i].1->0),
            ll: m.ll,
        }),
    decreases externs.len(),
{
    let prev = externs.drop_last();
    if i == externs.len() - 1 {
        lemma_rlib_lines_silent(prev);
        let line = protocol::rlib_marker() + externs[i].1->0;
        assert(rlib_marker_lines(externs) == rlib_marker_lines(prev).push(line));
        assert(rlib_marker_lines(externs) =~= seq![line]);
        assert(seq![line].drop_last() =~= Seq::<Seq<char>>::empty());
        assert(protocol::scan_model(m, Seq::<Seq<char>>::empty()) == m);
        assert(protocol::scan_model(m, seq![line]) == protocol::scan_step(m, line));
        assert(line.subrange(0, protocol::rlib_marker().len() as int)
            =~= protocol::rlib_marker());
        assert(protocol::marker_suffix(line, protocol::rlib_marker()) =~= externs[i].1->0);
    } else {
        assert(rlib_marker_lines(externs) == rlib_marker_lines(prev));
        lemma_scan_rlib_lines(m, prev, i);
    }
}

/// Turns one received compiler invocation into the lines to write on the
/// diagnostic stream and the argument vector to forward to the real
/// compiler, exactly as `wrapper_plan_spec` states it.
pub fn wrapper_plan(args: &Vec<String>) -> (r: Result<WrapperPlan, WrapperError>)
    ensures
        (r is Ok) == (wrapper_plan_spec(args.deep_view()) is Ok),
        r matches Ok(p) ==> p.marker_lines.deep_view() == wrapper_plan_spec(
            args.deep_view(),
        )->Ok_0.0 && p.forward_args.deep_view() == wrapper_plan_spec(args.deep_view())->Ok_0.1,
        r matches Err(e) ==> e == wrapper_plan_spec(args.deep_view())->Err_0,
{
    let inv = match parse_rustc_args(args) {
        Ok(v) => v,
        Err(e) => {
            return Err(e);
        },
    };
    let ghost st = parse_args_spec(args.deep_view(), init_state())->Ok_0;
    let builtins = strutil::str_eq(inv.crate_name.as_str(), "compiler_builtins");
    let mut marker_lines: Vec<String> = Vec::new();
    let mut k: usize = 0;
    proof {
        assert(externs_model(inv.externs@).subrange(0, 0) =~= Seq::<
            (Seq<char>, Option<Seq<char>>),
        >::empty());
    }
    while k < inv.externs.len()
        invariant
            k <= inv.externs@.len(),
            externs_model(inv.externs@) == st.externs,
            marker_lines.deep_view() == rlib_marker_lines(st.externs.subrange(0, k as int)),
        decreases inv.externs@.len() - k,
    {
        let ghost prefix1 = st.externs.subrange(0, k + 1 as int);
        proof {
            assert(prefix1.drop_last() =~= st.externs.subrange(0, k as int));
            assert(prefix1.last() == externs_model(inv.externs@)[k as int]);
        }
        let e = &inv.externs[k];
        if strutil::str_eq(e.name.as_str(), "compiler_builtins") {
            match &e.path {
                Some(p) => {
                    let line = protocol::rlib_marker_str().to_owned().concat(p.as_str());
                    marker_lines.push(line);
                },
                None => {},
            }
        }
        proof {
            assert(marker_lines.deep_view() =~= rlib_marker_lines(prefix1));
        }
        k += 1;
    }
    proof {
        assert(st.externs.subrange(0, inv.externs@.len() as int) =~= st.externs);
    }
    if builtins {
        let out_dir = match &inv.out_dir {
            Some(d) => d.clone(),
            None => {
                return Err(WrapperError::MissingOutDir);
            },
        };
        let ll_path = out_dir.concat("/").concat(inv.crate_name.as_str()).concat(
            inv.extra_filename.as_str(),
        ).concat(".ll");
        proof {
            assert(ll_path@ =~= ll_output_path(st));
        }
        let line = protocol::ll_marker_str().to_owned().concat(ll_path.as_str());
        marker_lines.push(line);
        proof {
            assert(marker_lines.deep_view() =~= marker_lines_spec(st));
        }
    } else {
        proof {
            assert(marker_lines.deep_view() =~= marker_lines_spec(st));
        }
    }
    let mut forward_args: Vec<String> = Vec::new();
    if builtins {
        forward_args.push(String::from_str("--emit=llvm-ir"));
    }
    forward_args.push(String::from_str("-Zemit-stack-sizes"));
    let ghost lead = forward_args.deep_view();
    let mut j: usize = 0;
    proof {
        assert(args.deep_view().subrange(0, 0) =~= Seq::<Seq<char>>::empty());
        assert(lead + args.deep_view().subrange(0, 0) =~= lead);
    }
    while j < args.len()
        invariant
            j <= args@.len(),
            forward_args.deep_view() == lead + args.deep_view().subrange(0, j as int),
        decreases args@.len() - j,
    {
        proof {
            assert(args.deep_view()[j as int] == args@[j as int]@);
        }
        let ghost before = forward_args.deep_view();
        forward_args.push(args[j].clone());
        proof {
            assert(forward_args.deep_view() =~= before.push(args.deep_view()[j as int]));
            assert(before.push(args.deep_view()[j as int]) =~= lead + args.deep_view().subrange(
                0,
                j + 1 as int,
            ));
        }
        j += 1;
    }
    proof {
        assert(args.deep_view().subrange(0, args@.len() as int) =~= args.deep_view());
        assert(forward_args.deep_view() =~= forward_args_spec(st, args.deep_view()));
    }
    Ok(WrapperPlan { marker_lines, forward_args })
}

} // verus!
