//! Command-line values and the algorithm that resolves them into argument
//! strings.
use vstd::prelude::*;
use crate::context::{separator_text, ResolutionContext};
use crate::error::{ArgErrorModel, CommandLineArgError};
use crate::options::{plain_options, CommandLineOptions, OptionsModel, QuoteStyle, opt_view};
use crate::text::{
    apply_format, apply_format_spec, join, join_spec, shell_quote, shell_quote_spec, strings_view,
};
use crate::value::{label_text_spec, repr_spec, Value};

verus! {

/// An ordered list of argument-like items with its rendering options.
#[derive(Debug)]
pub struct CommandLine {
    pub items: Vec<Value>,
    pub options: CommandLineOptions,
}

/// The outcome of a resolution: the argument strings, or the failure.
pub type Resolution = Result<Seq<Seq<char>>, ArgErrorModel>;

/// The mathematical form of a resolution result.
pub open spec fn result_view(r: Result<Vec<String>, CommandLineArgError>) -> Resolution {
    match r {
        Ok(v) => Ok(strings_view(v@)),
        Err(e) => Err(e@),
    }
}

/// The raw strings that one value expands to: a literal is itself, an
/// artifact its path, a nested command line its full resolution, a list or a
/// projection the expansions of its elements in order, a macro string the
/// expansions of its parts run together; anything else is rejected.
pub open spec fn expand_spec(v: Value, ctx: ResolutionContext) -> Resolution
    decreases v, 0nat,
{
    match v {
        Value::Str(s) => Ok(seq![s@]),
        Value::Int(_) | Value::Bool(_) | Value::NoneValue => Err(
            ArgErrorModel::InvalidItemType(repr_spec(v)),
        ),
        Value::Artifact(a) | Value::OutputArtifact(a) => match ctx.path_for_spec(a.id) {
            Some(p) => Ok(seq![p]),
            None => Err(ArgErrorModel::UnresolvedArtifact(a.id)),
        },
        Value::Label(l) => Ok(seq![label_text_spec(l)]),
        Value::RelativePath(p) => Ok(seq![p.root@ + separator_text(ctx.separator) + p.path@]),
        Value::MacroString(parts) => match render_spec(
            parts@,
            parts.len() as nat,
            plain_options(),
            ctx,
        ) {
            Ok(ss) => Ok(seq![join_spec(ss, seq![])]),
            Err(e) => Err(e),
        },
        Value::CommandLine(c) | Value::RunInfo(c) => render_spec(
            c.items@,
            c.items.len() as nat,
            c.options@,
            ctx,
        ),
        Value::Projection(vs) | Value::List(vs) => render_spec(
            vs@,
            vs.len() as nat,
            plain_options(),
            ctx,
        ),
    }
}

/// The arguments of the first `n` items, rendered with `o`, in order; the
/// failure of the first item that fails.
pub open spec fn render_spec(items: Seq<Value>, n: nat, o: OptionsModel, ctx: ResolutionContext) -> Resolution
    decreases items, n,
{
    if n == 0 || n > items.len() {
        Ok(seq![])
    } else {
        match render_spec(items, (n - 1) as nat, o, ctx) {
            Err(e) => Err(e),
            Ok(prev) => match expand_spec(items[n - 1], ctx) {
                Err(e) => Err(e),
                Ok(raw) => Ok(prev + render_item_spec(raw, o)),
            },
        }
    }
}

/// Each string with the template applied.
pub open spec fn formatted_spec(raw: Seq<Seq<char>>, format: Option<Seq<char>>) -> Seq<Seq<char>> {
    match format {
        Some(t) => raw.map_values(|s: Seq<char>| apply_format_spec(t, s)),
        None => raw,
    }
}

/// One argument joining all strings when a delimiter is set; else each
/// string is its own argument.
pub open spec fn delimited_spec(ss: Seq<Seq<char>>, delimiter: Option<Seq<char>>) -> Seq<Seq<char>> {
    match delimiter {
        Some(d) => seq![join_spec(ss, d)],
        None => ss,
    }
}

/// The arguments with `p` emitted before each of them.
pub open spec fn prepended_spec(args: Seq<Seq<char>>, prepend: Option<Seq<char>>) -> Seq<Seq<char>> {
    match prepend {
        Some(p) => Seq::new(2 * args.len(), |i: int| if i % 2 == 0 { p } else { args[i / 2] }),
        None => args,
    }
}

/// Each argument escaped by the quoting mode.
pub open spec fn quoted_spec(args: Seq<Seq<char>>, quote: Option<QuoteStyle>) -> Seq<Seq<char>> {
    match quote {
        Some(QuoteStyle::Shell) => args.map_values(|a: Seq<char>| shell_quote_spec(a)),
        None => args,
    }
}

/// The arguments of one item whose raw strings are `raw`: format, then
/// delimit, then prepend, then quote.
pub open spec fn render_item_spec(raw: Seq<Seq<char>>, o: OptionsModel) -> Seq<Seq<char>> {
    quoted_spec(
        prepended_spec(delimited_spec(formatted_spec(raw, o.format), o.delimiter), o.prepend),
        o.quote,
    )
}

proof fn lemma_render_error_persists(
    items: Seq<Value>,
    n: nat,
    m: nat,
    o: OptionsModel,
    ctx: ResolutionContext,
)
    requires
        n <= m <= items.len(),
        render_spec(items, n, o, ctx) is Err,
    ensures
        render_spec(items, m, o, ctx) == render_spec(items, n, o, ctx),
    decreases m,
{
    if m > n {
        lemma_render_error_persists(items, n, (m - 1) as nat, o, ctx);
    }
}

fn format_all(raw: Vec<String>, format: &Option<String>) -> (r: Vec<String>)
    ensures
        strings_view(r@) == formatted_spec(strings_view(raw@), opt_view(*format)),
{
    match format {
        None => raw,
        Some(t) => {
            let mut out: Vec<String> = Vec::new();
            let mut i: usize = 0;
            while i < raw.len()
                invariant
                    i <= raw.len(),
                    out@.len() == i,
                    forall|j: int| 0 <= j < i ==> #[trigger] out@[j]@ == apply_format_spec(t@, raw@[j]@),
                decreases raw.len() - i,
            {
                out.push(apply_format(t.as_str(), raw[i].as_str()));
                i += 1;
            }
            proof {
                assert(strings_view(out@) =~= formatted_spec(strings_view(raw@), Some(t@)));
            }
            out
        },
    }
}

fn delimit(ss: Vec<String>, delimiter: &Option<String>) -> (r: Vec<String>)
    ensures
        strings_view(r@) == delimited_spec(strings_view(ss@), opt_view(*delimiter)),
{
    match delimiter {
        None => ss,
        Some(d) => {
            let mut out: Vec<String> = Vec::new();
            out.push(join(&ss, d.as_str()));
            proof {
                assert(strings_view(out@) =~= seq![join_spec(strings_view(ss@), d@)]);
            }
            out
        },
    }
}

fn prepend_each(args: Vec<String>, prepend: &Option<String>) -> (r: Vec<String>)
    ensures
        strings_view(r@) == prepended_spec(strings_view(args@), opt_view(*prepend)),
{
    match prepend {
        None => args,
        Some(p) => {
            let ghost target = prepended_spec(strings_view(args@), Some(p@));
            let mut out: Vec<String> = Vec::new();
            let mut i: usize = 0;
            while i < args.len()
                invariant
                    i <= args.len(),
                    target == prepended_spec(strings_view(args@), Some(p@)),
                    out@.len() == 2 * i,
                    forall|j: int|
                        0 <= j < 2 * i ==> #[trigger] out@[j]@ == if j % 2 == 0 {
                            p@
                        } else {
                            args@[j / 2]@
                        },
                decreases args.len() - i,
            {
                out.push(p.clone());
                out.push(args[i].clone());
                proof {
                    assert((2 * i as int) % 2 == 0 && (2 * i as int) / 2 == i);
                    assert((2 * i as int + 1) % 2 == 1 && (2 * i as int + 1) / 2 == i);
                }
                i += 1;
            }
            proof {
                assert(strings_view(out@) =~= target);
            }
            out
        },
    }
}

fn quote_all(args: Vec<String>, quote: Option<QuoteStyle>) -> (r: Vec<String>)
    ensures
        strings_view(r@) == quoted_spec(strings_view(args@), quote),
{
    match quote {
        None => args,
        Some(QuoteStyle::Shell) => {
            let mut out: Vec<String> = Vec::new();
            let mut i: usize = 0;
            while i < args.len()
                invariant
                    i <= args.len(),
                    out@.len() == i,
                    forall|j: int| 0 <= j < i ==> #[trigger] out@[j]@ == shell_quote_spec(args@[j]@),
                decreases args.len() - i,
            {
                out.push(shell_quote(args[i].as_str()));
                i += 1;
            }
            proof {
                assert(strings_view(out@) =~= quoted_spec(strings_view(args@), quote));
            }
            out
        },
    }
}

/// Renders the raw strings of one item with the options `o`.
fn render_item(raw: Vec<String>, o: &CommandLineOptions) -> (r: Vec<String>)
    ensures
        strings_view(r@) == render_item_spec(strings_view(raw@), o@),
{
    let formatted = format_all(raw, &o.format);
    let delimited = delimit(formatted, &o.delimiter);
    let prepended = prepend_each(delimited, &o.prepend);
    quote_all(prepended, o.quote)
}

fn single(s: String) -> (r: Vec<String>)
    ensures
        strings_view(r@) == seq![s@],
{
    let mut r: Vec<String> = Vec::new();
    r.push(s);
    proof {
        assert(strings_view(r@) =~= seq![s@]);
    }
    r
}

/// The arguments of `items`, in order, rendered with `o`.
fn render(items: &Vec<Value>, o: &CommandLineOptions, ctx: &ResolutionContext) -> (r: Result<
    Vec<String>,
    CommandLineArgError,
>)
    ensures
        result_view(r) == render_spec(items@, items.len() as nat, o@, *ctx),
    decreases items,
{
    let mut out: Vec<String> = Vec::new();
    let mut i: usize = 0;
    proof {
        assert(strings_view(out@) =~= seq![]);
    }
    while i < items.len()
        invariant
            i <= items.len(),
            render_spec(items@, i as nat, o@, *ctx) == Ok::<Seq<Seq<char>>, ArgErrorModel>(
                strings_view(out@),
            ),
        decreases items.len() - i,
    {
        proof {
            vstd::std_specs::vec::axiom_vec_index_decreases(*items, i as int);
        }
        match expand(&items[i], ctx) {
            Err(e) => {
                proof {
                    lemma_render_error_persists(
                        items@,
                        (i + 1) as nat,
                        items.len() as nat,
                        o@,
                        *ctx,
                    );
                }
                return Err(e);
            },
            Ok(raw) => {
                let mut rendered = render_item(raw, o);
                let ghost prev = out@;
                let ghost added = rendered@;
                out.append(&mut rendered);
                proof {
                    assert(strings_view(out@) =~= strings_view(prev) + strings_view(added));
                }
            },
        }
        i += 1;
    }
    Ok(out)
}

/// The raw strings that `v` expands to against `ctx`.
pub fn expand(v: &Value, ctx: &ResolutionContext) -> (r: Result<Vec<String>, CommandLineArgError>)
    ensures
        result_view(r) == expand_spec(*v, *ctx),
    decreases v,
{
    let r = match v {
        Value::Str(s) => Ok(single(s.clone())),
        Value::Int(_) | Value::Bool(_) | Value::NoneValue => Err(
            CommandLineArgError::InvalidItemType { repr: v.repr() },
        ),
        Value::Artifact(a) | Value::OutputArtifact(a) => match ctx.path_for(a.id) {
            Some(p) => Ok(single(p)),
            None => Err(CommandLineArgError::UnresolvedArtifact { id: a.id }),
        },
        Value::Label(l) => Ok(single(l.text())),
        Value::RelativePath(p) => {
            let mut s = p.root.clone();
            s.append(ctx.separator.as_str());
            s.append(p.path.as_str());
            Ok(single(s))
        },
        Value::MacroString(parts) => {
            proof {
                assert(decreases_to!(*v => (*v)->MacroString_0));
            }
            match render(parts, &CommandLineOptions::plain(), ctx) {
                Ok(ss) => {
                    let none = String::new();
                    Ok(single(join(&ss, none.as_str())))
                },
                Err(e) => Err(e),
            }
        },
        Value::CommandLine(c) => {
            proof {
                assert(decreases_to!(*v => (*v)->CommandLine_0));
                assert(decreases_to!((*v)->CommandLine_0 => (*v)->CommandLine_0.items));
            }
            render(&c.items, &c.options, ctx)
        },
        Value::RunInfo(c) => {
            proof {
                assert(decreases_to!(*v => (*v)->RunInfo_0));
                assert(decreases_to!((*v)->RunInfo_0 => (*v)->RunInfo_0.items));
            }
            render(&c.items, &c.options, ctx)
        },
        Value::Projection(vs) => {
            proof {
                assert(decreases_to!(*v => (*v)->Projection_0));
            }
            render(vs, &CommandLineOptions::plain(), ctx)
        },
        Value::List(vs) => {
            proof {
                assert(decreases_to!(*v => (*v)->List_0));
            }
            render(vs, &CommandLineOptions::plain(), ctx)
        },
    };
    r
}

/// The one argument that `v` expands to: `None` when it expands to fewer or
/// more.
pub fn single_arg(v: &Value, ctx: &ResolutionContext) -> (r: Result<Option<String>, CommandLineArgError>)
    ensures
        match expand_spec(*v, *ctx) {
            Ok(ss) => match r {
                Ok(Some(s)) => ss.len() == 1 && s@ == ss[0],
                Ok(None) => ss.len() != 1,
                Err(_) => false,
            },
            Err(e) => r matches Err(x) && x@ == e,
        },
{
    match expand(v, ctx) {
        Ok(mut ss) => {
            if ss.len() == 1 {
                Ok(ss.pop())
            } else {
                Ok(None)
            }
        },
        Err(e) => Err(e),
    }
}

/// The options that `cmd_args` builds from its arguments, `quote` already
/// read.
pub open spec fn options_of(
    delimiter: Option<String>,
    format: Option<String>,
    prepend: Option<String>,
    quote: Option<QuoteStyle>,
) -> OptionsModel {
    OptionsModel {
        delimiter: opt_view(delimiter),
        format: opt_view(format),
        prepend: opt_view(prepend),
        quote: quote,
    }
}

/// Builds a command line from `args` and the rendering options. `quote`,
/// when given, must be `shell`. Items are checked when the command line is
/// resolved.
pub fn cmd_args(
    args: Vec<Value>,
    delimiter: Option<String>,
    format: Option<String>,
    prepend: Option<String>,
    quote: Option<&str>,
) -> (r: Result<CommandLine, CommandLineArgError>)
    ensures
        match quote {
            None => r matches Ok(c) && c.items@ == args@ && c.options@ == options_of(
                delimiter,
                format,
                prepend,
                None,
            ),
            Some(q) => if q@ == seq!['s', 'h', 'e', 'l', 'l'] {
                r matches Ok(c) && c.items@ == args@ && c.options@ == options_of(
                    delimiter,
                    format,
                    prepend,
                    Some(QuoteStyle::Shell),
                )
            } else {
                r matches Err(e) && e@ == ArgErrorModel::InvalidQuoteStyle(q@)
            },
        },
{
    let style = match quote {
        None => None,
        Some(q) => match QuoteStyle::parse(q) {
            Ok(st) => Some(st),
            Err(e) => {
                return Err(e);
            },
        },
    };
    Ok(CommandLine { items: args, options: CommandLineOptions { delimiter, format, prepend, quote: style } })
}

impl CommandLine {
    /// The outcome of resolving this command line against `ctx`.
    pub open spec fn resolve_spec(&self, ctx: ResolutionContext) -> Resolution {
        render_spec(self.items@, self.items.len() as nat, self.options@, ctx)
    }

    /// An empty command line with no option set.
    pub fn new() -> (r: CommandLine)
        ensures
            r.items@.len() == 0,
            r.options@ == plain_options(),
    {
        CommandLine { items: Vec::new(), options: CommandLineOptions::plain() }
    }

    /// Appends one item; it is checked when the command line is resolved.
    pub fn add(&mut self, v: Value)
        ensures
            final(self).items@ == old(self).items@.push(v),
            final(self).options == old(self).options,
    {
        self.items.push(v);
    }

    /// The number of items.
    pub fn len(&self) -> (r: usize)
        ensures
            r == self.items@.len(),
    {
        self.items.len()
    }

    /// Resolves this command line against `ctx` into its arguments.
    pub fn resolve(&self, ctx: &ResolutionContext) -> (r: Result<Vec<String>, CommandLineArgError>)
        ensures
            result_view(r) == self.resolve_spec(*ctx),
    {
        render(&self.items, &self.options, ctx)
    }

    /// Freezes this command line for good: it can still be resolved, but no
    /// item can be added.
    pub fn freeze(self) -> (r: FrozenCommandLine)
        ensures
            r@ == self,
    {
        FrozenCommandLine { inner: self }
    }
}

/// A command line after freezing: shareable and read-only.
#[derive(Debug)]
pub struct FrozenCommandLine {
    inner: CommandLine,
}

impl View for FrozenCommandLine {
    type V = CommandLine;

    closed spec fn view(&self) -> CommandLine {
        self.inner
    }
}

impl FrozenCommandLine {
    /// The outcome of resolving this frozen command line against `ctx`.
    pub closed spec fn resolve_spec(&self, ctx: ResolutionContext) -> Resolution {
        render_spec(self.inner.items@, self.inner.items.len() as nat, self.inner.options@, ctx)
    }

    /// Resolves this frozen command line against `ctx` into its arguments.
    pub fn resolve(&self, ctx: &ResolutionContext) -> (r: Result<Vec<String>, CommandLineArgError>)
        ensures
            result_view(r) == self.resolve_spec(*ctx),
    {
        render(&self.inner.items, &self.inner.options, ctx)
    }

    /// The command line that was frozen, for reading.
    pub fn command_line(&self) -> (r: &CommandLine)
        ensures
            *r == self@,
    {
        &self.inner
    }
}

/// Freezing keeps resolution: a frozen command line resolves, against any
/// context, exactly as the command line it was frozen from.
pub proof fn lemma_freeze_keeps_resolution(c: CommandLine, f: FrozenCommandLine, ctx: ResolutionContext)
    requires
        f@ == c,
    ensures
        f.resolve_spec(ctx) == c.resolve_spec(ctx),
{
}

/// Resolution is deterministic: any two resolutions of one command line
/// against one context have the same outcome.
pub proof fn lemma_resolution_deterministic(
    c: CommandLine,
    ctx: ResolutionContext,
    r1: Result<Vec<String>, CommandLineArgError>,
    r2: Result<Vec<String>, CommandLineArgError>,
)
    requires
        result_view(r1) == c.resolve_spec(ctx),
        result_view(r2) == c.resolve_spec(ctx),
    ensures
        result_view(r1) == result_view(r2),
{
}

/// A command line without items resolves to no argument, whatever its
/// options and the context.
pub proof fn lemma_empty_resolves_to_nothing(c: CommandLine, ctx: ResolutionContext)
    requires
        c.items@.len() == 0,
    ensures
        c.resolve_spec(ctx) == Ok::<Seq<Seq<char>>, ArgErrorModel>(seq![]),
{
}

proof fn lemma_render_prefix_ok(items: Seq<Value>, n: nat, o: OptionsModel, ctx: ResolutionContext)
    requires
        n <= items.len(),
        forall|j: int| 0 <= j < n ==> #[trigger] expand_spec(items[j], ctx) is Ok,
    ensures
        render_spec(items, n, o, ctx) is Ok,
    decreases n,
{
    if n > 0 {
        lemma_render_prefix_ok(items, (n - 1) as nat, o, ctx);
        assert(expand_spec(items[n - 1], ctx) is Ok);
    }
}

/// A value that is not argument-like is never turned into text: the first
/// such item makes resolution fail with `InvalidItemType` and its
/// representation, when the items before it expand.
pub proof fn lemma_unsupported_item_rejected(c: CommandLine, ctx: ResolutionContext, k: int)
    requires
        0 <= k < c.items@.len(),
        forall|j: int| 0 <= j < k ==> #[trigger] expand_spec(c.items@[j], ctx) is Ok,
        c.items@[k] is Int || c.items@[k] is Bool || c.items@[k] is NoneValue,
    ensures
        c.resolve_spec(ctx) == Err::<Seq<Seq<char>>, ArgErrorModel>(
            ArgErrorModel::InvalidItemType(repr_spec(c.items@[k])),
        ),
{
    lemma_render_prefix_ok(c.items@, k as nat, c.options@, ctx);
    let e = ArgErrorModel::InvalidItemType(repr_spec(c.items@[k]));
    assert(expand_spec(c.items@[k], ctx) == Err::<Seq<Seq<char>>, ArgErrorModel>(e));
    assert(render_spec(c.items@, (k + 1) as nat, c.options@, ctx) == Err::<Seq<Seq<char>>, ArgErrorModel>(e));
    lemma_render_error_persists(c.items@, (k + 1) as nat, c.items@.len(), c.options@, ctx);
}

/// The outcome of resolving one list of items after another: the first
/// failure, or the arguments of both in order.
pub open spec fn then_spec(first: Resolution, second: Resolution) -> Resolution {
    match first {
        Err(e) => Err(e),
        Ok(x) => match second {
            Err(e) => Err(e),
            Ok(y) => Ok(x + y),
        },
    }
}

proof fn lemma_render_prefix_of_concat(
    a: Seq<Value>,
    b: Seq<Value>,
    m: nat,
    o: OptionsModel,
    ctx: ResolutionContext,
)
    requires
        m <= a.len(),
    ensures
        render_spec(a + b, m, o, ctx) == render_spec(a, m, o, ctx),
    decreases m,
{
    if m > 0 {
        lemma_render_prefix_of_concat(a, b, (m - 1) as nat, o, ctx);
        assert((a + b)[m - 1] == a[m - 1]);
    }
}

proof fn lemma_render_concat_upto(
    a: Seq<Value>,
    b: Seq<Value>,
    n: nat,
    o: OptionsModel,
    ctx: ResolutionContext,
)
    requires
        n <= b.len(),
    ensures
        render_spec(a + b, a.len() + n, o, ctx) == then_spec(
            render_spec(a, a.len() as nat, o, ctx),
            render_spec(b, n, o, ctx),
        ),
    decreases n,
{
    if n == 0 {
        lemma_render_prefix_of_concat(a, b, a.len() as nat, o, ctx);
        match render_spec(a, a.len() as nat, o, ctx) {
            Ok(x) => assert(x + seq![] =~= x),
            Err(_) => {},
        }
    } else {
        lemma_render_concat_upto(a, b, (n - 1) as nat, o, ctx);
        assert((a + b)[a.len() + n - 1] == b[n - 1]);
        match render_spec(a, a.len() as nat, o, ctx) {
            Ok(x) => match render_spec(b, (n - 1) as nat, o, ctx) {
                Ok(y) => match expand_spec(b[n - 1], ctx) {
                    Ok(raw) => assert(x + y + render_item_spec(raw, o) =~= x + (y
                        + render_item_spec(raw, o))),
                    Err(_) => {},
                },
                Err(_) => {},
            },
            Err(_) => {},
        }
    }
}

/// Resolution keeps the order of items: a command line whose items are those
/// of `c1` followed by those of `c2`, with the same options, resolves to the
/// arguments of `c1` followed by those of `c2`, or to the first failure.
pub proof fn lemma_resolution_keeps_order(
    c1: CommandLine,
    c2: CommandLine,
    c: CommandLine,
    ctx: ResolutionContext,
)
    requires
        c.items@ == c1.items@ + c2.items@,
        c.options@ == c1.options@,
        c2.options@ == c1.options@,
    ensures
        c.resolve_spec(ctx) == then_spec(c1.resolve_spec(ctx), c2.resolve_spec(ctx)),
{
    lemma_render_concat_upto(c1.items@, c2.items@, c2.items@.len(), c1.options@, ctx);
}

} // verus!
