//! The reference backend: serializes chart variants into browser charting
//! library traces and wraps them in a static document shell.
//!
//! Every piece of output text is pinned by a spec function, so the artifact
//! is characterized exactly: one named trace declaration per variant, with
//! positional names shared between the declaration block and the final trace
//! collection expression.

use vstd::prelude::*;

use crate::Plot;
use crate::data::MatrixData;
use crate::data::MatrixModel;
use crate::data::SeriesModel;
use crate::data::VectorData;
use crate::data::dec_digits;
use crate::data::fmt_u64;
use crate::data::texts_of;
use crate::error::RenderError;
use super::Renderable;

verus! {

/// A category text wrapped in single quotes, the literal form the backend
/// uses for one categorical element.
pub open spec fn quoted(s: Seq<char>) -> Seq<char> {
    seq!['\''] + s + seq!['\'']
}

/// The first `i` element texts joined with `, `.
pub open spec fn join_prefix(elems: Seq<Seq<char>>, i: int) -> Seq<char>
    decreases i,
{
    if i <= 0 {
        Seq::empty()
    } else if i == 1 {
        elems[0]
    } else {
        join_prefix(elems, i - 1) + ", "@ + elems[i - 1]
    }
}

/// All element texts joined with `, `.
pub open spec fn joined(elems: Seq<Seq<char>>) -> Seq<char> {
    join_prefix(elems, elems.len() as int)
}

/// Element texts joined and wrapped in brackets: a full literal array.
pub open spec fn bracketed(elems: Seq<Seq<char>>) -> Seq<char> {
    seq!['['] + joined(elems) + seq![']']
}

/// Every element text wrapped in single quotes.
pub open spec fn quoted_all(t: Seq<Seq<char>>) -> Seq<Seq<char>> {
    t.map_values(|s: Seq<char>| quoted(s))
}

/// The size-aware text form of a series: a singleton collapses to a scalar
/// literal, any other length renders as a full literal array. Categorical
/// elements are quoted; quantitative elements are bare numerals.
pub open spec fn series_text_model(m: SeriesModel) -> Seq<char> {
    match m {
        SeriesModel::Quantitative(t) => {
            if t.len() == 1 {
                t[0]
            } else {
                bracketed(t)
            }
        },
        SeriesModel::Categorical(t) => {
            if t.len() == 1 {
                quoted(t[0])
            } else {
                bracketed(quoted_all(t))
            }
        },
    }
}

/// The text form of one matrix row: always a full literal array.
pub open spec fn row_text_model(row: Seq<Seq<char>>) -> Seq<char> {
    bracketed(row)
}

/// The text of every row of a matrix.
pub open spec fn rows_text(rows: Seq<Seq<Seq<char>>>) -> Seq<Seq<char>> {
    rows.map_values(|row: Seq<Seq<char>>| row_text_model(row))
}

/// The size-aware text form of a matrix: a single row collapses to that
/// row's array, more rows render as an array of row arrays.
pub open spec fn matrix_text_model(m: MatrixModel) -> Seq<char> {
    match m {
        MatrixModel::Quantitative(rows) => {
            if rows.len() == 1 {
                row_text_model(rows[0])
            } else {
                bracketed(rows_text(rows))
            }
        },
    }
}

/// Appends `texts[i]` (quoted when `quote` is set) to `out`.
fn append_element(out: &mut String, text: &String, quote: bool)
    ensures
        final(out)@ == old(out)@ + if quote {
            quoted(text@)
        } else {
            text@
        },
{
    if quote {
        out.append("'");
        out.append(text.as_str());
        out.append("'");
        proof {
            reveal_strlit("'");
            assert(final(out)@ =~= old(out)@ + quoted(text@));
        }
    } else {
        out.append(text.as_str());
    }
}

/// The element texts of `v`, quoted when `quote` is set.
pub open spec fn element_texts(v: Seq<String>, quote: bool) -> Seq<Seq<char>> {
    if quote {
        quoted_all(texts_of(v))
    } else {
        texts_of(v)
    }
}

/// Appends all element texts of `v`, joined with `, `, to `out`.
fn append_joined(out: &mut String, v: &Vec<String>, quote: bool)
    ensures
        final(out)@ == old(out)@ + joined(element_texts(v@, quote)),
{
    let ghost texts = element_texts(v@, quote);
    let mut i: usize = 0;
    while i < v.len()
        invariant
            i <= v.len(),
            texts == element_texts(v@, quote),
            texts.len() == v@.len(),
            out@ == old(out)@ + join_prefix(texts, i as int),
        decreases v.len() - i,
    {
        if i > 0 {
            out.append(", ");
        }
        append_element(out, &v[i], quote);
        i = i + 1;
    }
}

/// The size-aware text of a series: scalar for a singleton, array otherwise.
pub fn series_text(d: &VectorData) -> (r: String)
    ensures
        r@ == series_text_model(d@),
{
    let (v, quote) = match d {
        VectorData::Quantitative(v) => (v, false),
        VectorData::Categorical(v) => (v, true),
    };
    let mut out = String::new();
    if v.len() == 1 {
        append_element(&mut out, &v[0], quote);
        proof {
            assert(out@ =~= series_text_model(d@));
        }
    } else {
        out.append("[");
        append_joined(&mut out, v, quote);
        out.append("]");
        proof {
            reveal_strlit("[");
            reveal_strlit("]");
            assert(out@ =~= series_text_model(d@));
        }
    }
    out
}

/// Appends one matrix row as a full literal array to `out`.
fn append_row(out: &mut String, row: &Vec<String>)
    ensures
        final(out)@ == old(out)@ + row_text_model(element_texts(row@, false)),
{
    out.append("[");
    append_joined(out, row, false);
    out.append("]");
    proof {
        reveal_strlit("[");
        reveal_strlit("]");
        assert(final(out)@ =~= old(out)@ + row_text_model(element_texts(row@, false)));
    }
}

/// The row texts of a matrix's rows, as held in executable form.
pub open spec fn row_texts(rows: Seq<Vec<String>>) -> Seq<Seq<char>> {
    rows.map_values(|row: Vec<String>| row_text_model(texts_of(row@)))
}

/// The size-aware text of a matrix: one row collapses to that row's array,
/// more rows render as an array of row arrays.
pub fn matrix_text(d: &MatrixData) -> (r: String)
    ensures
        r@ == matrix_text_model(d@),
{
    let rows = match d {
        MatrixData::Quantitative(rows) => rows,
    };
    let mut out = String::new();
    if rows.len() == 1 {
        append_row(&mut out, &rows[0]);
        proof {
            assert(out@ =~= matrix_text_model(d@));
        }
    } else {
        out.append("[");
        let ghost texts = row_texts(rows@);
        let mut i: usize = 0;
        while i < rows.len()
            invariant
                i <= rows.len(),
                texts == row_texts(rows@),
                texts.len() == rows@.len(),
                out@ == "["@ + join_prefix(texts, i as int),
            decreases rows.len() - i,
        {
            if i > 0 {
                out.append(", ");
            }
            append_row(&mut out, &rows[i]);
            i = i + 1;
        }
        out.append("]");
        proof {
            reveal_strlit("[");
            reveal_strlit("]");
            assert(texts =~= rows_text(
                match d@ {
                    MatrixModel::Quantitative(rv) => rv,
                },
            ));
            assert(out@ =~= matrix_text_model(d@));
        }
    }
    out
}

/// The reference backend: serialization into the browser charting library's
/// trace format.
pub struct Plotly {}

/// The uniform attribute form: `key: value,`.
pub open spec fn attr_pair(key: Seq<char>, value: Seq<char>) -> Seq<char> {
    key + ": "@ + value + seq![',']
}

/// A value that renders to attribute text: the two canonical data forms.
pub trait AttrText: Sized {
    /// The attribute text this value renders to.
    spec fn attr_model(&self) -> Seq<char>;

    /// Renders the value's attribute text.
    fn attr_text(&self) -> (r: String)
        ensures
            r@ == self.attr_model(),
    ;
}

impl AttrText for VectorData {
    open spec fn attr_model(&self) -> Seq<char> {
        series_text_model(self@)
    }

    fn attr_text(&self) -> (r: String) {
        series_text(self)
    }
}

impl AttrText for MatrixData {
    open spec fn attr_model(&self) -> Seq<char> {
        matrix_text_model(self@)
    }

    fn attr_text(&self) -> (r: String) {
        matrix_text(self)
    }
}

/// The attribute texts of an optional channel, absent channels staying
/// absent.
pub open spec fn opt_attr_model<T: AttrText>(o: Option<T>) -> Option<Seq<char>> {
    match o {
        Some(d) => Some(d.attr_model()),
        None => None,
    }
}

/// The text of an optional display name.
pub open spec fn opt_text(o: Option<String>) -> Option<Seq<char>> {
    match o {
        Some(n) => Some(n@),
        None => None,
    }
}

/// The geometric block of a two-axis variant: the `x` and `y` attribute
/// pairs followed by the variant-kind discriminator text.
pub open spec fn two_axis_model(def: Seq<char>, xm: Seq<char>, ym: Seq<char>) -> Seq<char> {
    attr_pair("x"@, xm) + " "@ + attr_pair("y"@, ym) + " "@ + def
}

/// The geometric block of a single-axis variant: one attribute pair (named
/// `attr_name`, or `x` when none is given) followed by the discriminator.
pub open spec fn one_axis_model(def: Seq<char>, dm: Seq<char>, attr_name: Option<Seq<char>>) -> Seq<
    char,
> {
    match attr_name {
        Some(n) => attr_pair(n, dm) + " "@ + def,
        None => attr_pair("x"@, dm) + " "@ + def,
    }
}

/// The decoration block: one attribute pair for each present optional
/// channel — zero, one or two pairs — closed by the block's comma. An
/// absent channel contributes no text at all.
pub open spec fn markers_model(cm: Option<Seq<char>>, sm: Option<Seq<char>>) -> Seq<char> {
    let color_part = match cm {
        Some(c) => attr_pair("color"@, c),
        None => Seq::empty(),
    };
    let both = match sm {
        Some(s) => color_part + " "@ + attr_pair("size"@, s),
        None => color_part,
    };
    both + seq![',']
}

/// The trailing name attribute: `name: 'text'` when a name was bound,
/// nothing otherwise.
pub open spec fn name_attr_model(nm: Option<Seq<char>>) -> Seq<char> {
    match nm {
        Some(n) => "name: '"@ + n + seq!['\''],
        None => Seq::empty(),
    }
}

/// Appends the attribute pair `key: value,` to `out`.
fn append_attr<T: AttrText>(out: &mut String, key: &str, value: &T)
    ensures
        final(out)@ == old(out)@ + attr_pair(key@, value.attr_model()),
{
    out.append(key);
    out.append(": ");
    let text = value.attr_text();
    out.append(text.as_str());
    out.append(",");
    proof {
        reveal_strlit(": ");
        reveal_strlit(",");
        assert(final(out)@ =~= old(out)@ + attr_pair(key@, value.attr_model()));
    }
}

/// Serializes the geometric block of a two-axis variant.
pub fn type_to_string_2d<T: AttrText>(plot_definition: &str, x: &T, y: &T) -> (r: String)
    ensures
        r@ == two_axis_model(plot_definition@, x.attr_model(), y.attr_model()),
{
    let mut out = String::new();
    append_attr(&mut out, "x", x);
    out.append(" ");
    append_attr(&mut out, "y", y);
    out.append(" ");
    out.append(plot_definition);
    proof {
        reveal_strlit(" ");
        assert(out@ =~= two_axis_model(plot_definition@, x.attr_model(), y.attr_model()));
    }
    out
}

/// Serializes the geometric block of a single-axis variant.
pub fn type_to_string_1d<T: AttrText>(
    plot_definition: &str,
    data: &T,
    attr_name: Option<&str>,
) -> (r: String)
    ensures
        r@ == one_axis_model(
            plot_definition@,
            data.attr_model(),
            match attr_name {
                Some(n) => Some(n@),
                None => None,
            },
        ),
{
    let mut out = String::new();
    match attr_name {
        Some(n) => {
            append_attr(&mut out, n, data);
        },
        None => {
            append_attr(&mut out, "x", data);
        },
    }
    out.append(" ");
    out.append(plot_definition);
    proof {
        reveal_strlit(" ");
        assert(out@ =~= one_axis_model(
            plot_definition@,
            data.attr_model(),
            match attr_name {
                Some(n) => Some(n@),
                None => None,
            },
        ));
    }
    out
}

/// Serializes the decoration block built from whichever of color and size
/// are present.
pub fn markers_to_string<T: AttrText>(color: &Option<T>, size: &Option<T>) -> (r: String)
    ensures
        r@ == markers_model(opt_attr_model(*color), opt_attr_model(*size)),
{
    let mut out = String::new();
    if let Some(c) = color {
        append_attr(&mut out, "color", c);
    }
    if let Some(s) = size {
        out.append(" ");
        append_attr(&mut out, "size", s);
    }
    out.append(",");
    proof {
        reveal_strlit(" ");
        reveal_strlit(",");
        assert(out@ =~= markers_model(opt_attr_model(*color), opt_attr_model(*size)));
    }
    out
}

/// Serializes the trailing name attribute, or nothing when no name is bound.
pub fn name_to_string(name: &Option<String>) -> (r: String)
    ensures
        r@ == name_attr_model(opt_text(*name)),
{
    let mut out = String::new();
    if let Some(n) = name {
        out.append("name: '");
        out.append(n.as_str());
        out.append("'");
        proof {
            reveal_strlit("name: '");
            reveal_strlit("'");
            assert(out@ =~= name_attr_model(opt_text(*name)));
        }
    }
    out
}

/// The full trace body of one chart variant, in fixed order: the geometric
/// block, the decoration block, and the trailing name attribute, separated
/// by single spaces.
pub open spec fn plot_text_model(p: Plot) -> Seq<char> {
    match p {
        Plot::Scatter { x, y, color, size, name } => two_axis_model(
            "mode: 'markers', type: 'scatter'"@,
            series_text_model(x@),
            series_text_model(y@),
        ) + " "@ + markers_model(opt_attr_model(color), opt_attr_model(size)) + " "@
            + name_attr_model(opt_text(name)),
        Plot::Line { x, y, color, size, name } => two_axis_model(
            "mode: 'lines', type: 'scatter'"@,
            series_text_model(x@),
            series_text_model(y@),
        ) + " "@ + markers_model(opt_attr_model(color), opt_attr_model(size)) + " "@
            + name_attr_model(opt_text(name)),
        Plot::Bar { x, y, color, name } => two_axis_model(
            "type: 'bar'"@,
            series_text_model(x@),
            series_text_model(y@),
        ) + " "@ + markers_model(opt_attr_model(color), None) + " "@ + name_attr_model(
            opt_text(name),
        ),
        Plot::Pie { x, color, name } => one_axis_model(
            "type: 'pie'"@,
            series_text_model(x@),
            Some("values"@),
        ) + " "@ + markers_model(opt_attr_model(color), None) + " "@ + name_attr_model(
            opt_text(name),
        ),
        Plot::HorizontalBar { x, y, color, name } => two_axis_model(
            "type: 'bar', orientation: 'h'"@,
            series_text_model(x@),
            series_text_model(y@),
        ) + " "@ + markers_model(opt_attr_model(color), None) + " "@ + name_attr_model(
            opt_text(name),
        ),
        Plot::BoxPlot { x, color, name } => one_axis_model(
            "type: 'box', boxpoints: 'Outliers'"@,
            series_text_model(x@),
            None,
        ) + " "@ + markers_model(opt_attr_model(color), None) + " "@ + name_attr_model(
            opt_text(name),
        ),
        Plot::SimpleHeatmap { z, color, name } => one_axis_model(
            "type: 'heatmap'"@,
            matrix_text_model(z@),
            Some("z"@),
        ) + " "@ + markers_model(opt_attr_model(color), None) + " "@ + name_attr_model(
            opt_text(name),
        ),
    }
}

/// Joins the three serialized blocks of one trace body with single spaces.
fn join_blocks(base: String, markers: String, name: String) -> (r: String)
    ensures
        r@ == base@ + " "@ + markers@ + " "@ + name@,
{
    let mut out = base;
    out.append(" ");
    out.append(markers.as_str());
    out.append(" ");
    out.append(name.as_str());
    out
}

/// Serializes one chart variant into its full trace body.
pub fn plot_to_string(p: &Plot) -> (r: String)
    ensures
        r@ == plot_text_model(*p),
{
    match p {
        Plot::Scatter { x, y, color, size, name } => {
            let base = type_to_string_2d("mode: 'markers', type: 'scatter'", x, y);
            let markers = markers_to_string(color, size);
            let name = name_to_string(name);
            join_blocks(base, markers, name)
        },
        Plot::Line { x, y, color, size, name } => {
            let base = type_to_string_2d("mode: 'lines', type: 'scatter'", x, y);
            let markers = markers_to_string(color, size);
            let name = name_to_string(name);
            join_blocks(base, markers, name)
        },
        Plot::Bar { x, y, color, name } => {
            let base = type_to_string_2d("type: 'bar'", x, y);
            let markers = markers_to_string(color, &None);
            let name = name_to_string(name);
            join_blocks(base, markers, name)
        },
        Plot::Pie { x, color, name } => {
            let base = type_to_string_1d("type: 'pie'", x, Some("values"));
            let markers = markers_to_string(color, &None);
            let name = name_to_string(name);
            join_blocks(base, markers, name)
        },
        Plot::HorizontalBar { x, y, color, name } => {
            let base = type_to_string_2d("type: 'bar', orientation: 'h'", x, y);
            let markers = markers_to_string(color, &None);
            let name = name_to_string(name);
            join_blocks(base, markers, name)
        },
        Plot::BoxPlot { x, color, name } => {
            let base = type_to_string_1d("type: 'box', boxpoints: 'Outliers'", x, None);
            let markers = markers_to_string(color, &None);
            let name = name_to_string(name);
            join_blocks(base, markers, name)
        },
        Plot::SimpleHeatmap { z, color, name } => {
            let base = type_to_string_1d("type: 'heatmap'", z, Some("z"));
            let markers = markers_to_string(color, &None);
            let name = name_to_string(name);
            join_blocks(base, markers, name)
        },
    }
}

/// The positional label of the trace at index `i`: `trace0`, `trace1`, and
/// so on. Name assignment is purely positional.
pub open spec fn trace_label(i: nat) -> Seq<char> {
    "trace"@ + dec_digits(i)
}

/// One named trace declaration statement.
pub open spec fn trace_decl_model(i: nat, p: Plot) -> Seq<char> {
    "let "@ + trace_label(i) + " = { "@ + plot_text_model(p) + " };\n"@
}

/// One reference to a declared trace inside the trace collection expression.
pub open spec fn trace_ref_model(i: nat) -> Seq<char> {
    trace_label(i) + ","@
}

/// The first `n` trace declarations, in variant order.
pub open spec fn decls_model(data: Seq<Plot>, n: int) -> Seq<char>
    decreases n,
{
    if n <= 0 {
        Seq::empty()
    } else {
        decls_model(data, n - 1) + trace_decl_model((n - 1) as nat, data[n - 1])
    }
}

/// The first `n` trace references, in the same positional order as the
/// declarations.
pub open spec fn refs_model(n: int) -> Seq<char>
    decreases n,
{
    if n <= 0 {
        Seq::empty()
    } else {
        refs_model(n - 1) + trace_ref_model((n - 1) as nat)
    }
}

/// The body script: every trace declaration, then one statement that builds
/// the ordered trace collection and mounts the chart into the fixed anchor.
pub open spec fn script_model(data: Seq<Plot>) -> Seq<char> {
    decls_model(data, data.len() as int) + "\nlet data = ["@ + refs_model(data.len() as int)
        + "]; Plotly.newPlot('myDiv', data);"@
}

/// The document shell text that precedes the body script.
pub open spec fn html_head() -> Seq<char> {
    "<head>\n    <!-- Plotly.js -->\n    <script src=\"https://cdn.plot.ly/plotly-latest.min.js\"></script>\n    </head>\n    <body>\n    <div id=\"myDiv\"></div>\n    <script>\n    "@
}

/// The document shell text that follows the body script.
pub open spec fn html_tail() -> Seq<char> {
    "\n    </script>\n    </body>\n    "@
}

/// The full artifact: the body script embedded in the static document shell.
pub open spec fn html_model(script: Seq<char>) -> Seq<char> {
    html_head() + script + html_tail()
}

impl Plotly {
    /// Serializes one variant into its named trace declaration statement.
    pub fn trace(idx: usize, t: &Plot) -> (r: String)
        ensures
            r@ == trace_decl_model(idx as nat, *t),
    {
        let mut out = String::new();
        out.append("let ");
        out.append("trace");
        let label = fmt_u64(idx as u64);
        out.append(label.as_str());
        out.append(" = { ");
        let body = plot_to_string(t);
        out.append(body.as_str());
        out.append(" };\n");
        out
    }

    /// The reference to the trace declared at `idx`, as it stands in the
    /// trace collection expression.
    pub fn name(idx: usize) -> (r: String)
        ensures
            r@ == trace_ref_model(idx as nat),
    {
        let mut out = String::new();
        out.append("trace");
        let label = fmt_u64(idx as u64);
        out.append(label.as_str());
        out.append(",");
        out
    }

    /// Builds the body script: the trace declarations in variant order,
    /// then the collection-and-mount statement referencing the same names
    /// in the same order.
    pub fn build_javascript(&self, data: &Vec<Plot>) -> (r: String)
        ensures
            r@ == script_model(data@),
    {
        let mut out = String::new();
        let mut i: usize = 0;
        while i < data.len()
            invariant
                i <= data.len(),
                out@ == decls_model(data@, i as int),
            decreases data.len() - i,
        {
            let decl = Plotly::trace(i, &data[i]);
            out.append(decl.as_str());
            i = i + 1;
        }
        out.append("\nlet data = [");
        let mut j: usize = 0;
        while j < data.len()
            invariant
                j <= data.len(),
                out@ == decls_model(data@, data@.len() as int) + "\nlet data = ["@ + refs_model(
                    j as int,
                ),
            decreases data.len() - j,
        {
            let trace_ref = Plotly::name(j);
            out.append(trace_ref.as_str());
            j = j + 1;
        }
        out.append("]; Plotly.newPlot('myDiv', data);");
        out
    }

    /// Embeds the body script in the static document shell.
    pub fn html(plot_script: String) -> (r: String)
        ensures
            r@ == html_model(plot_script@),
    {
        let mut out = String::new();
        out.append(
            "<head>\n    <!-- Plotly.js -->\n    <script src=\"https://cdn.plot.ly/plotly-latest.min.js\"></script>\n    </head>\n    <body>\n    <div id=\"myDiv\"></div>\n    <script>\n    ",
        );
        out.append(plot_script.as_str());
        out.append("\n    </script>\n    </body>\n    ");
        out
    }
}

/// Law: serialization is order-preserving. The positional label inside the
/// trace declaration at index `i` is the very label inside the entry at
/// index `i` of the trace collection expression: declarations and references
/// carry the same names in the same order.
pub proof fn lemma_trace_names_positional(data: Seq<Plot>, i: int)
    requires
        0 <= i < data.len(),
    ensures
        trace_decl_model(i as nat, data[i]).subrange(
            4,
            4 + trace_label(i as nat).len() as int,
        ) == trace_label(i as nat),
        trace_ref_model(i as nat).subrange(0, trace_label(i as nat).len() as int) == trace_label(
            i as nat,
        ),
{
    reveal_strlit("let ");
    assert(trace_decl_model(i as nat, data[i]).subrange(4, 4 + trace_label(i as nat).len() as int)
        =~= trace_label(i as nat));
    assert(trace_ref_model(i as nat).subrange(0, trace_label(i as nat).len() as int)
        =~= trace_label(i as nat));
}

/// Law: a present single-element series serializes as a scalar literal, and
/// a present series of any other length serializes as a full literal array
/// holding exactly its elements in original order.
pub proof fn lemma_series_scalar_collapse(m: SeriesModel)
    ensures
        m matches SeriesModel::Quantitative(t) ==> series_text_model(m) == (if t.len() == 1 {
            t[0]
        } else {
            bracketed(t)
        }),
        m matches SeriesModel::Categorical(t) ==> series_text_model(m) == (if t.len() == 1 {
            quoted(t[0])
        } else {
            bracketed(quoted_all(t))
        }),
{
}

/// Law: an absent optional channel contributes zero attribute text. With
/// neither color nor size the decoration block is its bare closing comma,
/// with one channel absent only the other's pair appears, and an unbound
/// name contributes nothing: no output holds an attribute with an empty or
/// null value for an unbound channel.
pub proof fn lemma_absent_channels_no_text(cm: Option<Seq<char>>, sm: Option<Seq<char>>)
    ensures
        cm is None && sm is None ==> markers_model(cm, sm) == seq![','],
        cm is Some && sm is None ==> markers_model(cm, sm) == attr_pair("color"@, cm->Some_0)
            + seq![','],
        cm is None && sm is Some ==> markers_model(cm, sm) == " "@ + attr_pair("size"@, sm->Some_0)
            + seq![','],
        name_attr_model(None) == Seq::<char>::empty(),
{
    if cm is None && sm is None {
        assert(markers_model(cm, sm) =~= seq![',']);
    }
    if cm is Some && sm is None {
        assert(markers_model(cm, sm) =~= attr_pair("color"@, cm->Some_0) + seq![',']);
    }
    if cm is None && sm is Some {
        assert(markers_model(cm, sm) =~= " "@ + attr_pair("size"@, sm->Some_0) + seq![',']);
    }
}

impl Renderable for Plotly {
    /// This backend implements every variant: serialization is total and
    /// atomic, so the artifact is owed for every variant sequence.
    open spec fn spec_render(&self, data: Seq<Plot>, display: bool) -> Result<
        Seq<char>,
        RenderError,
    > {
        Ok(html_model(script_model(data)))
    }

    fn render(&self, data: &Vec<Plot>, display: bool) -> (r: Result<String, RenderError>) {
        let script = self.build_javascript(data);
        Ok(Plotly::html(script))
    }
}

} // verus!
