//! The API description (`api.json`) and the function lists that the
//! generators are driven by.
use vstd::prelude::*;

use crate::text::{seq_less, str_less, lemma_seq_less_irreflexive, lemma_seq_less_transitive, lemma_seq_less_total};
use crate::types::{TypeSpec, parse_type, lemma_builtin_type_names};

verus! {

// ---------------------------------------------------------------------------
// The description as read from `api.json`
// ---------------------------------------------------------------------------

/// One argument object of an entry: its `name: type` pairs, in the order in
/// which they were read.
pub struct Arg {
    pub inner: Vec<(String, String)>,
}

/// One entry of `cfunc` or `rfunc`.
pub struct FuncEntry {
    /// The doc string (empty where the description gives none).
    pub doc: String,
    /// The return type's name (`None` for a function that returns nothing).
    pub ret: Option<String>,
    /// The argument objects, in order.
    pub args: Vec<Arg>,
}

/// The whole description: the functions that Rust calls in C++ (`cfunc`) and
/// those that C++ calls in Rust (`rfunc`), each under its name.
pub struct ApiSchema {
    pub cfunc: Vec<(String, FuncEntry)>,
    pub rfunc: Vec<(String, FuncEntry)>,
}

/// What an entry says: its doc, its return type's name and all its
/// `name: type` pairs in order.
pub struct EntryView {
    pub doc: Seq<char>,
    pub ret: Option<Seq<char>>,
    pub pairs: Seq<(Seq<char>, Seq<char>)>,
}

/// The pairs of one argument object.
pub open spec fn arg_pairs(a: Arg) -> Seq<(Seq<char>, Seq<char>)> {
    Seq::new(a.inner@.len(), |i: int| (a.inner@[i].0@, a.inner@[i].1@))
}

/// The pairs of all argument objects, one object after the other.
pub open spec fn all_pairs(args: Seq<Arg>) -> Seq<(Seq<char>, Seq<char>)>
    decreases args.len(),
{
    if args.len() == 0 {
        seq![]
    } else {
        all_pairs(args.drop_last()) + arg_pairs(args.last())
    }
}

impl View for FuncEntry {
    type V = EntryView;

    open spec fn view(&self) -> EntryView {
        EntryView {
            doc: self.doc@,
            ret: match self.ret {
                Some(r) => Some(r@),
                None => None,
            },
            pairs: all_pairs(self.args@),
        }
    }
}

/// The named entries of one list.
pub open spec fn entries_view(v: Seq<(String, FuncEntry)>) -> Seq<(Seq<char>, EntryView)> {
    Seq::new(v.len(), |i: int| (v[i].0@, v[i].1@))
}

// ---------------------------------------------------------------------------
// The function lists that the generators read
// ---------------------------------------------------------------------------

/// A function of the bridge with its argument and return types resolved.
pub struct FuncSpec {
    pub name: String,
    pub args: Vec<(String, TypeSpec)>,
    pub ret: TypeSpec,
    pub doc: String,
}

/// What a `FuncSpec` holds, as plain values.
pub struct FuncModel {
    pub name: Seq<char>,
    pub args: Seq<(Seq<char>, TypeSpec)>,
    pub ret: TypeSpec,
    pub doc: Seq<char>,
}

impl View for FuncSpec {
    type V = FuncModel;

    open spec fn view(&self) -> FuncModel {
        FuncModel {
            name: self.name@,
            args: Seq::new(self.args@.len(), |i: int| (self.args@[i].0@, self.args@[i].1)),
            ret: self.ret,
            doc: self.doc@,
        }
    }
}

/// The models of a list of functions.
pub open spec fn models(v: Seq<FuncSpec>) -> Seq<FuncModel> {
    Seq::new(v.len(), |i: int| v[i]@)
}

/// The resolved types of `pairs`, or the message of the first type name that
/// is not supported.
pub open spec fn resolve_pairs(pairs: Seq<(Seq<char>, Seq<char>)>) -> Result<
    Seq<(Seq<char>, TypeSpec)>,
    Seq<char>,
>
    decreases pairs.len(),
{
    if pairs.len() == 0 {
        Ok(seq![])
    } else {
        match resolve_pairs(pairs.drop_last()) {
            Err(m) => Err(m),
            Ok(done) => match parse_type(pairs.last().1) {
                Ok(t) => Ok(done.push((pairs.last().0, t))),
                Err(m) => Err(m),
            },
        }
    }
}

/// The name of the return type: `()` where the entry gives none.
pub open spec fn ret_name(ret: Option<Seq<char>>) -> Seq<char> {
    match ret {
        Some(r) => r,
        None => "()"@,
    }
}

/// The function that an entry describes, or the message of its first
/// unsupported type name (the arguments are looked at before the return type).
pub open spec fn resolve_entry(name: Seq<char>, e: EntryView) -> Result<FuncModel, Seq<char>> {
    match resolve_pairs(e.pairs) {
        Err(m) => Err(m),
        Ok(args) => match parse_type(ret_name(e.ret)) {
            Err(m) => Err(m),
            Ok(ret) => Ok(FuncModel { name, args, ret, doc: e.doc }),
        },
    }
}

/// The functions of a list of entries, in the order of the list, or the
/// message of the first entry that cannot be resolved.
pub open spec fn resolve_entries(entries: Seq<(Seq<char>, EntryView)>) -> Result<
    Seq<FuncModel>,
    Seq<char>,
>
    decreases entries.len(),
{
    if entries.len() == 0 {
        Ok(seq![])
    } else {
        match resolve_entries(entries.drop_last()) {
            Err(m) => Err(m),
            Ok(done) => match resolve_entry(entries.last().0, entries.last().1) {
                Ok(f) => Ok(done.push(f)),
                Err(m) => Err(m),
            },
        }
    }
}

// ---------------------------------------------------------------------------
// Ordering by name
// ---------------------------------------------------------------------------

/// `s` with `x` placed after every function whose name does not come after
/// `x`'s, counted from the end.
pub open spec fn insert_by_name(s: Seq<FuncModel>, x: FuncModel) -> Seq<FuncModel>
    decreases s.len(),
{
    if s.len() == 0 {
        seq![x]
    } else if seq_less(x.name, s.last().name) {
        insert_by_name(s.drop_last(), x).push(s.last())
    } else {
        s.push(x)
    }
}

/// `s` ordered by name, functions of the same name kept in their order (the
/// order that a stable sort by name gives).
pub open spec fn sort_by_name(s: Seq<FuncModel>) -> Seq<FuncModel>
    decreases s.len(),
{
    if s.len() == 0 {
        seq![]
    } else {
        insert_by_name(sort_by_name(s.drop_last()), s.last())
    }
}

proof fn lemma_insert_at(s: Seq<FuncModel>, x: FuncModel, j: int)
    requires
        0 <= j <= s.len(),
        forall|k: int| j <= k < s.len() ==> seq_less(x.name, #[trigger] s[k].name),
        j > 0 ==> !seq_less(x.name, s[j - 1].name),
    ensures
        insert_by_name(s, x) == s.insert(j, x),
    decreases s.len(),
{
    if s.len() == 0 {
        assert(s.insert(j, x) =~= seq![x]);
    } else if j == s.len() {
        assert(s.insert(j, x) =~= s.push(x));
    } else {
        assert(seq_less(x.name, s[s.len() - 1].name));
        lemma_insert_at(s.drop_last(), x, j);
        assert(s.drop_last().insert(j, x).push(s.last()) =~= s.insert(j, x));
    }
}

/// Places `f` into `v` as `insert_by_name` says.
fn insert_func(v: &mut Vec<FuncSpec>, f: FuncSpec)
    ensures
        models(final(v)@) == insert_by_name(models(old(v)@), f@),
{
    let mut j: usize = v.len();
    while j > 0 && str_less(f.name.as_str(), v[j - 1].name.as_str())
        invariant
            j <= v@.len(),
            forall|k: int| j <= k < v@.len() ==> seq_less(f@.name, #[trigger] v@[k]@.name),
        decreases j,
    {
        j = j - 1;
    }
    let ghost before = models(v@);
    let ghost fm = f@;
    proof {
        assert forall|k: int| j <= k < before.len() implies seq_less(fm.name, #[trigger] before[k].name) by {
            assert(before[k] == v@[k]@);
        }
        lemma_insert_at(before, fm, j as int);
    }
    v.insert(j, f);
    assert(models(v@) =~= before.insert(j as int, fm));
}

// ---------------------------------------------------------------------------
// Building the lists
// ---------------------------------------------------------------------------

/// The function that every list of `cfunc` gets: the logger that Rust calls.
pub open spec fn log_func() -> FuncModel {
    FuncModel {
        name: "uerust_log"@,
        args: seq![("a0"@, parse_type("&str"@)->Ok_0), ("a1"@, parse_type("u8"@)->Ok_0)],
        ret: parse_type("()"@)->Ok_0,
        doc: ""@,
    }
}

/// The function that every list of `rfunc` gets: the hook that C++ calls
/// after (re)loading the library.
pub open spec fn loaded_func() -> FuncModel {
    FuncModel {
        name: "uerust_loaded"@,
        args: seq![("a0"@, parse_type("bool"@)->Ok_0)],
        ret: parse_type("()"@)->Ok_0,
        doc: ""@,
    }
}

/// What a description resolves to: both lists with their fixed function
/// added, each ordered by name; or the message of the first unsupported type
/// name (`cfunc` is looked at before `rfunc`).
pub open spec fn resolve_api(
    cfunc: Seq<(Seq<char>, EntryView)>,
    rfunc: Seq<(Seq<char>, EntryView)>,
) -> Result<(Seq<FuncModel>, Seq<FuncModel>), Seq<char>> {
    match resolve_entries(cfunc) {
        Err(m) => Err(m),
        Ok(c) => match resolve_entries(rfunc) {
            Err(m) => Err(m),
            Ok(r) => Ok((sort_by_name(c.push(log_func())), sort_by_name(r.push(loaded_func())))),
        },
    }
}

/// Whether `r` is what `resolve_api` gives for `schema`.
pub open spec fn resolved_as(
    r: Result<(Vec<FuncSpec>, Vec<FuncSpec>), String>,
    schema: &ApiSchema,
) -> bool {
    let want = resolve_api(entries_view(schema.cfunc@), entries_view(schema.rfunc@));
    match r {
        Ok((c, rf)) => want == Ok::<(Seq<FuncModel>, Seq<FuncModel>), Seq<char>>(
            (models(c@), models(rf@)),
        ),
        Err(e) => want == Err::<(Seq<FuncModel>, Seq<FuncModel>), Seq<char>>(e@),
    }
}

proof fn lemma_pairs_step(args: Seq<Arg>, i: int, k: int)
    requires
        0 <= i < args.len(),
        0 <= k < args[i].inner@.len(),
    ensures
        all_pairs(args.take(i)) + arg_pairs(args[i]).take(k + 1) == (all_pairs(args.take(i))
            + arg_pairs(args[i]).take(k)).push(arg_pairs(args[i])[k]),
{
    assert(arg_pairs(args[i]).take(k + 1) =~= arg_pairs(args[i]).take(k).push(
        arg_pairs(args[i])[k],
    ));
    assert(all_pairs(args.take(i)) + arg_pairs(args[i]).take(k + 1) =~= (all_pairs(args.take(i))
        + arg_pairs(args[i]).take(k)).push(arg_pairs(args[i])[k]));
}

/// Resolves the argument pairs of one entry, in order.
fn resolve_args(args: &Vec<Arg>) -> (r: Result<Vec<(String, TypeSpec)>, String>)
    ensures
        match r {
            Ok(v) => resolve_pairs(all_pairs(args@)) == Ok::<
                Seq<(Seq<char>, TypeSpec)>,
                Seq<char>,
            >(Seq::new(v@.len(), |i: int| (v@[i].0@, v@[i].1))),
            Err(e) => resolve_pairs(all_pairs(args@)) is Err && resolve_pairs(
                all_pairs(args@),
            )->Err_0 == e@,
        },
{
    let mut out: Vec<(String, TypeSpec)> = Vec::new();
    let n = args.len();
    let mut i: usize = 0;
    assert(args@.take(0) =~= Seq::<Arg>::empty());
    assert(Seq::new(out@.len(), |j: int| (out@[j].0@, out@[j].1)) =~= Seq::<(Seq<char>, TypeSpec)>::empty());
    while i < n
        invariant
            i <= n,
            n == args@.len(),
            resolve_pairs(all_pairs(args@.take(i as int))) == Ok::<
                Seq<(Seq<char>, TypeSpec)>,
                Seq<char>,
            >(Seq::new(out@.len(), |j: int| (out@[j].0@, out@[j].1))),
        decreases n - i,
    {
        let arg = &args[i];
        let m = arg.inner.len();
        let mut k: usize = 0;
        assert(args@.take(i + 1).drop_last() =~= args@.take(i as int));
        assert(arg_pairs(args@[i as int]).take(0) =~= Seq::<(Seq<char>, Seq<char>)>::empty());
        assert(all_pairs(args@.take(i as int)) + arg_pairs(args@[i as int]).take(0) =~= all_pairs(
            args@.take(i as int),
        ));
        while k < m
            invariant
                i < n,
                n == args@.len(),
                arg == &args@[i as int],
                m == arg.inner@.len(),
                k <= m,
                resolve_pairs(
                    all_pairs(args@.take(i as int)) + arg_pairs(args@[i as int]).take(k as int),
                ) == Ok::<Seq<(Seq<char>, TypeSpec)>, Seq<char>>(
                    Seq::new(out@.len(), |j: int| (out@[j].0@, out@[j].1)),
                ),
            decreases m - k,
        {
            let ghost pre = all_pairs(args@.take(i as int)) + arg_pairs(args@[i as int]).take(
                k as int,
            );
            proof {
                lemma_pairs_step(args@, i as int, k as int);
            }
            let key = &arg.inner[k].0;
            let ty = &arg.inner[k].1;
            let ghost post = pre.push(arg_pairs(args@[i as int])[k as int]);
            assert(post.drop_last() =~= pre);
            match TypeSpec::from_rust_type(ty.as_str()) {
                Ok(t) => {
                    let ghost before = Seq::new(out@.len(), |j: int| (out@[j].0@, out@[j].1));
                    out.push((key.clone(), t));
                    assert(Seq::new(out@.len(), |j: int| (out@[j].0@, out@[j].1)) =~= before.push(
                        (key@, t),
                    ));
                },
                Err(e) => {
                    proof {
                        lemma_resolve_pairs_err_prefix(
                            all_pairs(args@),
                            post,
                            all_pairs(args@.take(i as int)) + arg_pairs(args@[i as int]),
                            args@,
                            i as int,
                        );
                    }
                    return Err(e);
                },
            }
            k = k + 1;
        }
        assert(arg_pairs(args@[i as int]).take(m as int) =~= arg_pairs(args@[i as int]));
        assert(all_pairs(args@.take(i + 1)) == all_pairs(args@.take(i as int)) + arg_pairs(
            args@[i as int],
        ));
        i = i + 1;
    }
    assert(args@.take(n as int) =~= args@);
    Ok(out)
}

/// A failure in a prefix of the pairs is the failure of all of them.
proof fn lemma_resolve_pairs_err_prefix(
    all: Seq<(Seq<char>, Seq<char>)>,
    pre: Seq<(Seq<char>, Seq<char>)>,
    mid: Seq<(Seq<char>, Seq<char>)>,
    args: Seq<Arg>,
    i: int,
)
    requires
        0 <= i < args.len(),
        all == all_pairs(args),
        mid == all_pairs(args.take(i)) + arg_pairs(args[i]),
        pre.len() <= mid.len(),
        pre =~= mid.take(pre.len() as int),
        resolve_pairs(pre) is Err,
    ensures
        resolve_pairs(all) == resolve_pairs(pre),
{
    lemma_all_pairs_prefix(args, i + 1);
    assert(args.take(i + 1).drop_last() =~= args.take(i));
    assert(mid == all_pairs(args.take(i + 1)));
    lemma_resolve_pairs_extend(pre, all);
}

/// The pairs of a prefix of the argument objects are a prefix of all pairs.
proof fn lemma_all_pairs_prefix(args: Seq<Arg>, i: int)
    requires
        0 <= i <= args.len(),
    ensures
        all_pairs(args.take(i)).len() <= all_pairs(args).len(),
        all_pairs(args.take(i)) =~= all_pairs(args).take(all_pairs(args.take(i)).len() as int),
    decreases args.len() - i,
{
    if i == args.len() {
        assert(args.take(i) =~= args);
    } else {
        lemma_all_pairs_prefix(args, i + 1);
        assert(args.take(i + 1).drop_last() =~= args.take(i));
    }
}

/// Once the pairs fail to resolve, more pairs after them fail the same way.
proof fn lemma_resolve_pairs_extend(pre: Seq<(Seq<char>, Seq<char>)>, all: Seq<(Seq<char>, Seq<char>)>)
    requires
        pre.len() <= all.len(),
        pre =~= all.take(pre.len() as int),
        resolve_pairs(pre) is Err,
    ensures
        resolve_pairs(all) == resolve_pairs(pre),
    decreases all.len(),
{
    if all.len() > pre.len() {
        assert(pre =~= all.drop_last().take(pre.len() as int));
        lemma_resolve_pairs_extend(pre, all.drop_last());
    } else {
        assert(pre =~= all);
    }
}

/// Resolves one entry: its argument types first, then its return type.
fn resolve_func(name: &String, entry: &FuncEntry) -> (r: Result<FuncSpec, String>)
    ensures
        match r {
            Ok(f) => resolve_entry(name@, entry@) == Ok::<FuncModel, Seq<char>>(f@),
            Err(e) => resolve_entry(name@, entry@) == Err::<FuncModel, Seq<char>>(e@),
        },
{
    let args = match resolve_args(&entry.args) {
        Ok(a) => a,
        Err(e) => return Err(e),
    };
    let ret = match &entry.ret {
        Some(r) => TypeSpec::from_rust_type(r.as_str()),
        None => TypeSpec::from_rust_type("()"),
    };
    match ret {
        Ok(t) => {
            let f = FuncSpec { name: name.clone(), args, ret: t, doc: entry.doc.clone() };
            assert(f@.args =~= Seq::new(f.args@.len(), |i: int| (f.args@[i].0@, f.args@[i].1)));
            Ok(f)
        },
        Err(e) => Err(e),
    }
}

proof fn lemma_resolve_entries_err(entries: Seq<(Seq<char>, EntryView)>, i: int)
    requires
        0 <= i <= entries.len(),
        resolve_entries(entries.take(i)) is Err,
    ensures
        resolve_entries(entries) == resolve_entries(entries.take(i)),
    decreases entries.len() - i,
{
    if i < entries.len() {
        assert(entries.take(i + 1).drop_last() =~= entries.take(i));
        lemma_resolve_entries_err(entries, i + 1);
    } else {
        assert(entries.take(i) =~= entries);
    }
}

/// Resolves every entry of a list and orders the functions by name, with
/// `extra` placed among them.
fn resolve_list(entries: &Vec<(String, FuncEntry)>, extra: FuncSpec) -> (r: Result<
    Vec<FuncSpec>,
    String,
>)
    ensures
        match r {
            Ok(v) => resolve_entries(entries_view(entries@)) is Ok && models(v@) == sort_by_name(
                resolve_entries(entries_view(entries@))->Ok_0.push(extra@),
            ),
            Err(e) => resolve_entries(entries_view(entries@)) == Err::<Seq<FuncModel>, Seq<char>>(
                e@,
            ),
        },
{
    let ghost ev = entries_view(entries@);
    let mut out: Vec<FuncSpec> = Vec::new();
    let n = entries.len();
    let mut i: usize = 0;
    while i < n
        invariant
            i <= n,
            n == entries@.len(),
            ev == entries_view(entries@),
            resolve_entries(ev.take(i as int)) is Ok,
            models(out@) == sort_by_name(resolve_entries(ev.take(i as int))->Ok_0),
        decreases n - i,
    {
        assert(ev.take(i + 1).drop_last() =~= ev.take(i as int));
        assert(ev.take(i + 1).last() == ev[i as int]);
        let f = match resolve_func(&entries[i].0, &entries[i].1) {
            Ok(f) => f,
            Err(e) => {
                proof {
                    lemma_resolve_entries_err(ev, i + 1);
                }
                return Err(e);
            },
        };
        let ghost done = resolve_entries(ev.take(i as int))->Ok_0;
        assert(done.push(f@).drop_last() =~= done);
        insert_func(&mut out, f);
        i = i + 1;
    }
    assert(ev.take(n as int) =~= ev);
    let ghost all = resolve_entries(ev)->Ok_0;
    assert(all.push(extra@).drop_last() =~= all);
    insert_func(&mut out, extra);
    Ok(out)
}

/// Resolves a whole description into the two lists that the generators read:
/// `cfunc` with the logger added and `rfunc` with the load hook added, each
/// ordered by name. The first type name that is not supported (in `cfunc`,
/// then in `rfunc`; within an entry the arguments before the return type)
/// fails the whole description with its message.
pub fn process_api_schema(schema: &ApiSchema) -> (r: Result<(Vec<FuncSpec>, Vec<FuncSpec>), String>)
    ensures
        resolved_as(r, schema),
{
    proof {
        lemma_builtin_type_names();
        reveal_strlit("");
    }
    let str_type = TypeSpec::from_rust_type("&str")?;
    let u8_type = TypeSpec::from_rust_type("u8")?;
    let unit_type = TypeSpec::from_rust_type("()")?;
    let mut log_args: Vec<(String, TypeSpec)> = Vec::new();
    log_args.push((String::from_str("a0"), str_type));
    log_args.push((String::from_str("a1"), u8_type));
    let log = FuncSpec { name: String::from_str("uerust_log"), args: log_args, ret: unit_type, doc: String::new() };
    assert(log@.args =~= log_func().args && log@.doc =~= log_func().doc);
    let cfuncs = resolve_list(&schema.cfunc, log)?;
    let bool_type = TypeSpec::from_rust_type("bool")?;
    let mut loaded_args: Vec<(String, TypeSpec)> = Vec::new();
    loaded_args.push((String::from_str("a0"), bool_type));
    let loaded = FuncSpec { name: String::from_str("uerust_loaded"), args: loaded_args, ret: unit_type, doc: String::new() };
    assert(loaded@.args =~= loaded_func().args && loaded@.doc =~= loaded_func().doc);
    let rfuncs = resolve_list(&schema.rfunc, loaded)?;
    Ok((cfuncs, rfuncs))
}


// ---------------------------------------------------------------------------
// Laws of the order by name
// ---------------------------------------------------------------------------

/// Whether no function of `s` has a name that comes before the name of a
/// function ahead of it.
pub open spec fn names_sorted(s: Seq<FuncModel>) -> bool {
    forall|i: int, j: int| 0 <= i < j < s.len() ==> !seq_less(#[trigger] s[j].name, #[trigger] s[i].name)
}

/// The test for the functions of one name.
pub open spec fn named(k: Seq<char>) -> spec_fn(FuncModel) -> bool {
    |f: FuncModel| f.name == k
}

proof fn lemma_less_asymmetric(a: Seq<char>, b: Seq<char>)
    requires
        seq_less(a, b),
    ensures
        !seq_less(b, a),
{
    if seq_less(b, a) {
        lemma_seq_less_transitive(a, b, a);
        lemma_seq_less_irreflexive(a);
    }
}

proof fn lemma_not_less_chain(x: Seq<char>, l: Seq<char>, e: Seq<char>)
    requires
        !seq_less(x, l),
        !seq_less(l, e),
    ensures
        !seq_less(x, e),
{
    lemma_seq_less_total(l, e);
    if seq_less(x, e) {
        if seq_less(e, l) {
            lemma_seq_less_transitive(x, e, l);
        }
    }
}

proof fn lemma_insert_by_name_props(s: Seq<FuncModel>, x: FuncModel)
    ensures
        insert_by_name(s, x).len() == s.len() + 1,
        insert_by_name(s, x).to_multiset() =~= s.to_multiset().insert(x),
        forall|i: int|
            0 <= i < insert_by_name(s, x).len() ==> #[trigger] insert_by_name(s, x)[i] == x
                || s.contains(insert_by_name(s, x)[i]),
        names_sorted(s) ==> names_sorted(insert_by_name(s, x)),
    decreases s.len(),
{
    broadcast use vstd::seq_lib::group_to_multiset_ensures;

    if s.len() == 0 {
        assert(seq![x] =~= Seq::<FuncModel>::empty().push(x));
    } else if seq_less(x.name, s.last().name) {
        let d = s.drop_last();
        let l = s.last();
        lemma_insert_by_name_props(d, x);
        let rec = insert_by_name(d, x);
        assert(s =~= d.push(l));
        assert forall|i: int| 0 <= i < rec.push(l).len() implies #[trigger] rec.push(l)[i] == x
            || s.contains(rec.push(l)[i]) by {
            if i < rec.len() {
                if rec[i] != x {
                    let k = choose|k: int| 0 <= k < d.len() && d[k] == rec[i];
                    assert(s[k] == rec[i]);
                }
            } else {
                assert(s[s.len() - 1] == l);
            }
        }
        if names_sorted(s) {
            assert(names_sorted(d));
            assert forall|i: int, j: int| 0 <= i < j < rec.push(l).len() implies !seq_less(
                #[trigger] rec.push(l)[j].name,
                #[trigger] rec.push(l)[i].name,
            ) by {
                if j < rec.len() {
                    assert(rec[j] == rec.push(l)[j]);
                    assert(rec[i] == rec.push(l)[i]);
                } else {
                    let e = rec[i];
                    assert(rec.push(l)[i] == e);
                    if e == x {
                        lemma_less_asymmetric(x.name, l.name);
                    } else {
                        let k = choose|k: int| 0 <= k < d.len() && d[k] == e;
                        assert(s[k] == e);
                        assert(s[s.len() - 1] == l);
                    }
                }
            }
        }
    } else {
        let l = s.last();
        assert forall|i: int| 0 <= i < s.push(x).len() implies #[trigger] s.push(x)[i] == x
            || s.contains(s.push(x)[i]) by {
            if i < s.len() {
                assert(s.push(x)[i] == s[i]);
            }
        }
        if names_sorted(s) {
            assert forall|i: int, j: int| 0 <= i < j < s.push(x).len() implies !seq_less(
                #[trigger] s.push(x)[j].name,
                #[trigger] s.push(x)[i].name,
            ) by {
                if j < s.len() {
                    assert(s.push(x)[j] == s[j]);
                    assert(s.push(x)[i] == s[i]);
                } else {
                    assert(s.push(x)[i] == s[i]);
                    if i < s.len() - 1 {
                        assert(!seq_less(s[s.len() - 1].name, s[i].name));
                        lemma_not_less_chain(x.name, l.name, s[i].name);
                    }
                }
            }
        }
    }
}

/// Ordering by name gives a list in which no name comes before the name of a
/// function ahead of it.
pub proof fn lemma_sort_by_name_sorted(s: Seq<FuncModel>)
    ensures
        names_sorted(sort_by_name(s)),
    decreases s.len(),
{
    if s.len() > 0 {
        lemma_sort_by_name_sorted(s.drop_last());
        lemma_insert_by_name_props(sort_by_name(s.drop_last()), s.last());
    }
}

/// Ordering by name neither loses nor adds a function: the result holds the
/// same functions, as often as `s` does.
pub proof fn lemma_sort_by_name_permutes(s: Seq<FuncModel>)
    ensures
        sort_by_name(s).to_multiset() =~= s.to_multiset(),
        sort_by_name(s).len() == s.len(),
    decreases s.len(),
{
    broadcast use vstd::seq_lib::group_to_multiset_ensures;

    if s.len() > 0 {
        lemma_sort_by_name_permutes(s.drop_last());
        lemma_insert_by_name_props(sort_by_name(s.drop_last()), s.last());
        assert(s =~= s.drop_last().push(s.last()));
    }
}

proof fn lemma_filter_push(s: Seq<FuncModel>, x: FuncModel, p: spec_fn(FuncModel) -> bool)
    ensures
        s.push(x).filter(p) == if p(x) {
            s.filter(p).push(x)
        } else {
            s.filter(p)
        },
{
    reveal(Seq::filter);
    assert(s.push(x).drop_last() =~= s);
}

proof fn lemma_insert_by_name_stable(s: Seq<FuncModel>, x: FuncModel, k: Seq<char>)
    ensures
        insert_by_name(s, x).filter(named(k)) == s.push(x).filter(named(k)),
    decreases s.len(),
{
    lemma_filter_push(s, x, named(k));
    if s.len() > 0 && seq_less(x.name, s.last().name) {
        let d = s.drop_last();
        let l = s.last();
        lemma_insert_by_name_stable(d, x, k);
        lemma_filter_push(insert_by_name(d, x), l, named(k));
        lemma_filter_push(d, x, named(k));
        lemma_filter_push(d, l, named(k));
        assert(s =~= d.push(l));
        if x.name == k {
            lemma_seq_less_irreflexive(k);
        }
    } else if s.len() == 0 {
        assert(seq![x] =~= s.push(x));
    }
}

/// Ordering by name is stable: the functions of any one name come out in the
/// order in which they went in.
pub proof fn lemma_sort_by_name_stable(s: Seq<FuncModel>, k: Seq<char>)
    ensures
        sort_by_name(s).filter(named(k)) == s.filter(named(k)),
    decreases s.len(),
{
    if s.len() > 0 {
        let d = s.drop_last();
        lemma_sort_by_name_stable(d, k);
        lemma_insert_by_name_stable(sort_by_name(d), s.last(), k);
        lemma_filter_push(sort_by_name(d), s.last(), named(k));
        lemma_filter_push(d, s.last(), named(k));
        assert(s =~= d.push(s.last()));
    }
}


// ---------------------------------------------------------------------------
// Laws of resolved descriptions
// ---------------------------------------------------------------------------

/// A description that resolves gives one function per entry plus the fixed
/// one on each side: the logger among the functions that Rust calls, the load
/// hook among those that C++ calls; and both lists are ordered by name.
pub proof fn lemma_resolved_lists(
    cfunc: Seq<(Seq<char>, EntryView)>,
    rfunc: Seq<(Seq<char>, EntryView)>,
)
    requires
        resolve_api(cfunc, rfunc) is Ok,
    ensures
        ({
            let (c, r) = resolve_api(cfunc, rfunc)->Ok_0;
            &&& c.len() == cfunc.len() + 1
            &&& r.len() == rfunc.len() + 1
            &&& c.contains(log_func())
            &&& r.contains(loaded_func())
            &&& names_sorted(c)
            &&& names_sorted(r)
        }),
{
    broadcast use vstd::seq_lib::group_to_multiset_ensures;

    let c0 = resolve_entries(cfunc)->Ok_0;
    let r0 = resolve_entries(rfunc)->Ok_0;
    lemma_resolve_entries_each(cfunc);
    lemma_resolve_entries_each(rfunc);
    lemma_sort_by_name_permutes(c0.push(log_func()));
    lemma_sort_by_name_permutes(r0.push(loaded_func()));
    lemma_sort_by_name_sorted(c0.push(log_func()));
    lemma_sort_by_name_sorted(r0.push(loaded_func()));
    assert(c0.push(log_func()).contains(log_func())) by {
        assert(c0.push(log_func())[c0.len() as int] == log_func());
    }
    assert(r0.push(loaded_func()).contains(loaded_func())) by {
        assert(r0.push(loaded_func())[r0.len() as int] == loaded_func());
    }
    assert(c0.push(log_func()).to_multiset().count(log_func()) > 0);
    assert(r0.push(loaded_func()).to_multiset().count(loaded_func()) > 0);
}


// ---------------------------------------------------------------------------
// The order of the entries does not matter
// ---------------------------------------------------------------------------

/// Whether no two functions of `s` share a name.
pub open spec fn names_distinct(s: Seq<FuncModel>) -> bool {
    forall|i: int, j: int| 0 <= i < s.len() && 0 <= j < s.len() && i != j ==> #[trigger] s[i].name != #[trigger] s[j].name
}

/// Whether each name of `s` comes strictly before the names after it.
pub open spec fn names_strictly_sorted(s: Seq<FuncModel>) -> bool {
    forall|i: int, j: int| 0 <= i < j < s.len() ==> seq_less(#[trigger] s[i].name, #[trigger] s[j].name)
}

proof fn lemma_insert_position(s: Seq<FuncModel>, x: FuncModel) -> (j: int)
    ensures
        0 <= j <= s.len(),
        insert_by_name(s, x) == s.insert(j, x),
    decreases s.len(),
{
    if s.len() == 0 {
        assert(s.insert(0, x) =~= seq![x]);
        0
    } else if seq_less(x.name, s.last().name) {
        let j = lemma_insert_position(s.drop_last(), x);
        assert(s.drop_last().insert(j, x).push(s.last()) =~= s.insert(j, x));
        j
    } else {
        assert(s.insert(s.len() as int, x) =~= s.push(x));
        s.len() as int
    }
}

proof fn lemma_sort_by_name_elements(s: Seq<FuncModel>, e: FuncModel)
    ensures
        sort_by_name(s).contains(e) <==> s.contains(e),
{
    broadcast use vstd::seq_lib::group_to_multiset_ensures;

    lemma_sort_by_name_permutes(s);
    assert(sort_by_name(s).to_multiset().count(e) == s.to_multiset().count(e));
}

proof fn lemma_sort_by_name_distinct(s: Seq<FuncModel>)
    requires
        names_distinct(s),
    ensures
        names_distinct(sort_by_name(s)),
    decreases s.len(),
{
    if s.len() > 0 {
        let d = s.drop_last();
        let x = s.last();
        assert(names_distinct(d)) by {
            assert forall|i: int, j: int| 0 <= i < d.len() && 0 <= j < d.len() && i != j implies #[trigger] d[i].name != #[trigger] d[j].name by {
                assert(d[i] == s[i] && d[j] == s[j]);
            }
        }
        lemma_sort_by_name_distinct(d);
        let t = sort_by_name(d);
        let j = lemma_insert_position(t, x);
        assert forall|k: int| 0 <= k < t.len() implies #[trigger] t[k].name != x.name by {
            lemma_sort_by_name_elements(d, t[k]);
            assert(t.contains(t[k]));
            let m = choose|m: int| 0 <= m < d.len() && d[m] == t[k];
            assert(s[m] == t[k] && s[s.len() - 1] == x);
        }
        let r = t.insert(j, x);
        assert(sort_by_name(s) == r);
        assert forall|a: int, b: int| 0 <= a < r.len() && 0 <= b < r.len() && a != b implies #[trigger] r[a].name != #[trigger] r[b].name by {
            let ia = if a < j { a } else if a == j { -1 } else { a - 1 };
            let ib = if b < j { b } else if b == j { -1 } else { b - 1 };
            if ia >= 0 {
                assert(r[a] == t[ia]);
            } else {
                assert(r[a] == x);
            }
            if ib >= 0 {
                assert(r[b] == t[ib]);
            } else {
                assert(r[b] == x);
            }
        }
    }
}

proof fn lemma_strict_same_elements_equal(x: Seq<FuncModel>, y: Seq<FuncModel>)
    requires
        names_strictly_sorted(x),
        names_strictly_sorted(y),
        forall|e: FuncModel| x.contains(e) <==> y.contains(e),
    ensures
        x == y,
    decreases x.len(),
{
    if x.len() == 0 {
        if y.len() > 0 {
            assert(y.contains(y[0]));
        }
        assert(x =~= y);
    } else {
        assert(x.contains(x[0]));
        let k = choose|k: int| 0 <= k < y.len() && y[k] == x[0];
        assert(y.contains(y[0]));
        let m = choose|m: int| 0 <= m < x.len() && x[m] == y[0];
        if k > 0 {
            assert(seq_less(y[0].name, y[k].name));
            if m > 0 {
                assert(seq_less(x[0].name, x[m].name));
                lemma_seq_less_transitive(x[0].name, y[0].name, x[0].name);
                lemma_seq_less_irreflexive(x[0].name);
            } else {
                lemma_seq_less_irreflexive(x[0].name);
            }
        }
        assert(x[0] == y[0]);
        let xt = x.drop_first();
        let yt = y.drop_first();
        assert forall|e: FuncModel| xt.contains(e) <==> yt.contains(e) by {
            if xt.contains(e) {
                let i = choose|i: int| 0 <= i < xt.len() && xt[i] == e;
                assert(x[i + 1] == e);
                assert(x.contains(e));
                let j2 = choose|j2: int| 0 <= j2 < y.len() && y[j2] == e;
                assert(seq_less(x[0].name, x[i + 1].name));
                if j2 == 0 {
                    lemma_seq_less_irreflexive(x[0].name);
                }
                assert(yt[j2 - 1] == e);
            }
            if yt.contains(e) {
                let i = choose|i: int| 0 <= i < yt.len() && yt[i] == e;
                assert(y[i + 1] == e);
                assert(y.contains(e));
                let j2 = choose|j2: int| 0 <= j2 < x.len() && x[j2] == e;
                assert(seq_less(y[0].name, y[i + 1].name));
                if j2 == 0 {
                    lemma_seq_less_irreflexive(y[0].name);
                }
                assert(xt[j2 - 1] == e);
            }
        }
        lemma_strict_same_elements_equal(xt, yt);
        assert(x =~= seq![x[0]] + xt);
        assert(y =~= seq![y[0]] + yt);
    }
}

proof fn lemma_sorted_distinct_strict(s: Seq<FuncModel>)
    requires
        names_sorted(s),
        names_distinct(s),
    ensures
        names_strictly_sorted(s),
{
    assert forall|i: int, j: int| 0 <= i < j < s.len() implies seq_less(#[trigger] s[i].name, #[trigger] s[j].name) by {
        lemma_seq_less_total(s[i].name, s[j].name);
    }
}

/// Ordering by name does not depend on the order in which the functions come
/// when their names are distinct: any two lists that hold the same functions
/// come out alike.
pub proof fn lemma_sort_by_name_ignores_order(s1: Seq<FuncModel>, s2: Seq<FuncModel>)
    requires
        s1.to_multiset() == s2.to_multiset(),
        names_distinct(s1),
        names_distinct(s2),
    ensures
        sort_by_name(s1) == sort_by_name(s2),
{
    broadcast use vstd::seq_lib::group_to_multiset_ensures;

    let x = sort_by_name(s1);
    let y = sort_by_name(s2);
    lemma_sort_by_name_sorted(s1);
    lemma_sort_by_name_sorted(s2);
    lemma_sort_by_name_distinct(s1);
    lemma_sort_by_name_distinct(s2);
    lemma_sorted_distinct_strict(x);
    lemma_sorted_distinct_strict(y);
    assert forall|e: FuncModel| x.contains(e) <==> y.contains(e) by {
        lemma_sort_by_name_elements(s1, e);
        lemma_sort_by_name_elements(s2, e);
        s1.to_multiset_ensures();
        s2.to_multiset_ensures();
        assert(s1.contains(e) <==> s1.to_multiset().count(e) > 0);
        assert(s2.contains(e) <==> s2.to_multiset().count(e) > 0);
    }
    lemma_strict_same_elements_equal(x, y);
}


/// The function an entry resolves to, where the whole list resolves.
pub open spec fn entry_func(e: (Seq<char>, EntryView)) -> FuncModel {
    resolve_entry(e.0, e.1)->Ok_0
}

proof fn lemma_resolve_entries_each(entries: Seq<(Seq<char>, EntryView)>)
    requires
        resolve_entries(entries) is Ok,
    ensures
        resolve_entries(entries)->Ok_0.len() == entries.len(),
        forall|i: int|
            #![trigger resolve_entries(entries)->Ok_0[i]]
            0 <= i < entries.len() ==> resolve_entries(entries)->Ok_0[i] == entry_func(entries[i])
                && resolve_entries(entries)->Ok_0[i].name == entries[i].0,
    decreases entries.len(),
{
    if entries.len() > 0 {
        let d = entries.drop_last();
        lemma_resolve_entries_each(d);
        let done = resolve_entries(d)->Ok_0;
        let last = entries.last();
        assert(resolve_entries(entries)->Ok_0 == done.push(entry_func(last)));
        assert(entry_func(last).name == last.0);
        assert forall|i: int|
            #![trigger resolve_entries(entries)->Ok_0[i]]
            0 <= i < entries.len() implies resolve_entries(entries)->Ok_0[i] == entry_func(entries[i])
                && resolve_entries(entries)->Ok_0[i].name == entries[i].0 by {
            if i < d.len() {
                assert(entries[i] == d[i]);
                assert(done[i] == entry_func(d[i]) && done[i].name == d[i].0);
            } else {
                assert(entries[i] == last);
            }
        }
    }
}

/// Whether no two entries share a name.
pub open spec fn entry_names_distinct(es: Seq<(Seq<char>, EntryView)>) -> bool {
    forall|i: int, j: int| 0 <= i < es.len() && 0 <= j < es.len() && i != j ==> #[trigger] es[i].0 != #[trigger] es[j].0
}

proof fn lemma_one_list_ignores_order(
    e1: Seq<(Seq<char>, EntryView)>,
    e2: Seq<(Seq<char>, EntryView)>,
    extra: FuncModel,
)
    requires
        e1.to_multiset() == e2.to_multiset(),
        entry_names_distinct(e1),
        entry_names_distinct(e2),
        resolve_entries(e1) is Ok,
        resolve_entries(e2) is Ok,
    ensures
        sort_by_name(resolve_entries(e1)->Ok_0.push(extra)) == sort_by_name(
            resolve_entries(e2)->Ok_0.push(extra),
        ),
{
    broadcast use vstd::seq_lib::group_to_multiset_ensures;

    let c1 = resolve_entries(e1)->Ok_0;
    let c2 = resolve_entries(e2)->Ok_0;
    lemma_resolve_entries_each(e1);
    lemma_resolve_entries_each(e2);
    assert forall|i: int, j: int| 0 <= i < c1.len() && 0 <= j < c1.len() && i != j implies #[trigger] c1[i].name != #[trigger] c1[j].name by {
        assert(c1[i].name == e1[i].0 && c1[j].name == e1[j].0);
    }
    assert forall|i: int, j: int| 0 <= i < c2.len() && 0 <= j < c2.len() && i != j implies #[trigger] c2[i].name != #[trigger] c2[j].name by {
        assert(c2[i].name == e2[i].0 && c2[j].name == e2[j].0);
    }
    let x = sort_by_name(c1);
    let y = sort_by_name(c2);
    lemma_sort_by_name_sorted(c1);
    lemma_sort_by_name_sorted(c2);
    lemma_sort_by_name_distinct(c1);
    lemma_sort_by_name_distinct(c2);
    lemma_sorted_distinct_strict(x);
    lemma_sorted_distinct_strict(y);
    assert forall|e: FuncModel| x.contains(e) <==> y.contains(e) by {
        lemma_sort_by_name_elements(c1, e);
        lemma_sort_by_name_elements(c2, e);
        e1.to_multiset_ensures();
        e2.to_multiset_ensures();
        if c1.contains(e) {
            let i = choose|i: int| 0 <= i < c1.len() && c1[i] == e;
            assert(e1.contains(e1[i]));
            assert(e1.to_multiset().count(e1[i]) > 0);
            assert(e2.contains(e1[i]));
            let j = choose|j: int| 0 <= j < e2.len() && e2[j] == e1[i];
            assert(c2[j] == e);
        }
        if c2.contains(e) {
            let i = choose|i: int| 0 <= i < c2.len() && c2[i] == e;
            assert(e2.contains(e2[i]));
            assert(e2.to_multiset().count(e2[i]) > 0);
            assert(e1.contains(e2[i]));
            let j = choose|j: int| 0 <= j < e1.len() && e1[j] == e2[i];
            assert(c1[j] == e);
        }
    }
    lemma_strict_same_elements_equal(x, y);
    assert(c1.push(extra).drop_last() =~= c1);
    assert(c2.push(extra).drop_last() =~= c2);
}

/// The lists that a description resolves to do not depend on the order in
/// which its entries come: two descriptions that hold the same entries, with
/// distinct names, resolve alike where both resolve. This holds also where an
/// entry is named like a fixed function: that one is placed after the entry.
pub proof fn lemma_resolved_lists_ignore_order(
    cfunc1: Seq<(Seq<char>, EntryView)>,
    rfunc1: Seq<(Seq<char>, EntryView)>,
    cfunc2: Seq<(Seq<char>, EntryView)>,
    rfunc2: Seq<(Seq<char>, EntryView)>,
)
    requires
        cfunc1.to_multiset() == cfunc2.to_multiset(),
        rfunc1.to_multiset() == rfunc2.to_multiset(),
        entry_names_distinct(cfunc1),
        entry_names_distinct(cfunc2),
        entry_names_distinct(rfunc1),
        entry_names_distinct(rfunc2),
        resolve_api(cfunc1, rfunc1) is Ok,
        resolve_api(cfunc2, rfunc2) is Ok,
    ensures
        resolve_api(cfunc1, rfunc1) == resolve_api(cfunc2, rfunc2),
{
    lemma_one_list_ignores_order(cfunc1, cfunc2, log_func());
    lemma_one_list_ignores_order(rfunc1, rfunc2, loaded_func());
}

}
