//! Canonical data model: normalization of native containers into tagged
//! one-dimensional series and two-dimensional matrices.
//!
//! Quantitative values are carried as their decimal numeral text (the form a
//! 64-bit float renders to), so the serialization pipeline is purely textual.
//! Integer inputs are widened and rendered here; callers holding native float
//! containers render each value to its numeral text at the boundary and use
//! [`VectorData::quantitative`].

use vstd::prelude::*;

verus! {

/// Spec-level model of a one-dimensional series: the tag plus the element
/// texts (numeral text for quantitative data, raw text for categorical data).
pub enum SeriesModel {
    Quantitative(Seq<Seq<char>>),
    Categorical(Seq<Seq<char>>),
}

/// The decimal digit character for `d`.
pub open spec fn digit_char(d: nat) -> char {
    if d == 0 {
        '0'
    } else if d == 1 {
        '1'
    } else if d == 2 {
        '2'
    } else if d == 3 {
        '3'
    } else if d == 4 {
        '4'
    } else if d == 5 {
        '5'
    } else if d == 6 {
        '6'
    } else if d == 7 {
        '7'
    } else if d == 8 {
        '8'
    } else {
        '9'
    }
}

/// The decimal numeral of a natural number, most significant digit first.
pub open spec fn dec_digits(n: nat) -> Seq<char>
    decreases n,
{
    if n < 10 {
        seq![digit_char(n)]
    } else {
        dec_digits(n / 10) + seq![digit_char(n % 10)]
    }
}

/// The numeral text an integer takes after widening to a 64-bit float:
/// optional sign, decimal digits, and a trailing `.0`.
pub open spec fn int_numeral(i: int) -> Seq<char> {
    if i < 0 {
        seq!['-'] + dec_digits((-i) as nat) + seq!['.', '0']
    } else {
        dec_digits(i as nat) + seq!['.', '0']
    }
}

/// Appends the single decimal digit `d` to `s`.
fn push_digit(s: &mut String, d: u64)
    requires
        d < 10,
    ensures
        final(s)@ == old(s)@ + seq![digit_char(d as nat)],
{
    if d == 0 {
        s.append("0");
        proof {
            reveal_strlit("0");
            assert(final(s)@ =~= old(s)@ + seq![digit_char(d as nat)]);
        }
    } else if d == 1 {
        s.append("1");
        proof {
            reveal_strlit("1");
            assert(final(s)@ =~= old(s)@ + seq![digit_char(d as nat)]);
        }
    } else if d == 2 {
        s.append("2");
        proof {
            reveal_strlit("2");
            assert(final(s)@ =~= old(s)@ + seq![digit_char(d as nat)]);
        }
    } else if d == 3 {
        s.append("3");
        proof {
            reveal_strlit("3");
            assert(final(s)@ =~= old(s)@ + seq![digit_char(d as nat)]);
        }
    } else if d == 4 {
        s.append("4");
        proof {
            reveal_strlit("4");
            assert(final(s)@ =~= old(s)@ + seq![digit_char(d as nat)]);
        }
    } else if d == 5 {
        s.append("5");
        proof {
            reveal_strlit("5");
            assert(final(s)@ =~= old(s)@ + seq![digit_char(d as nat)]);
        }
    } else if d == 6 {
        s.append("6");
        proof {
            reveal_strlit("6");
            assert(final(s)@ =~= old(s)@ + seq![digit_char(d as nat)]);
        }
    } else if d == 7 {
        s.append("7");
        proof {
            reveal_strlit("7");
            assert(final(s)@ =~= old(s)@ + seq![digit_char(d as nat)]);
        }
    } else if d == 8 {
        s.append("8");
        proof {
            reveal_strlit("8");
            assert(final(s)@ =~= old(s)@ + seq![digit_char(d as nat)]);
        }
    } else {
        s.append("9");
        proof {
            reveal_strlit("9");
            assert(final(s)@ =~= old(s)@ + seq![digit_char(d as nat)]);
        }
    }
}

/// Appends the decimal numeral of `n` to `s`.
fn append_dec(s: &mut String, n: u64)
    ensures
        final(s)@ == old(s)@ + dec_digits(n as nat),
    decreases n,
{
    if n < 10 {
        push_digit(s, n);
    } else {
        append_dec(s, n / 10);
        push_digit(s, n % 10);
        proof {
            assert(final(s)@ =~= old(s)@ + dec_digits(n as nat));
        }
    }
}

/// The decimal numeral of `n` as a string.
pub fn fmt_u64(n: u64) -> (r: String)
    ensures
        r@ == dec_digits(n as nat),
{
    let mut s = String::new();
    append_dec(&mut s, n);
    proof {
        assert(s@ =~= dec_digits(n as nat));
    }
    s
}

/// The float numeral text of a nonnegative integer (digits plus `.0`).
pub fn fmt_quant_u64(n: u64) -> (r: String)
    ensures
        r@ == int_numeral(n as int),
{
    let mut s = String::new();
    append_dec(&mut s, n);
    s.append(".0");
    proof {
        reveal_strlit(".0");
        assert(s@ =~= int_numeral(n as int));
    }
    s
}

/// The float numeral text of a signed integer (sign, digits, `.0`).
pub fn fmt_quant_i64(n: i64) -> (r: String)
    ensures
        r@ == int_numeral(n as int),
{
    let mut s = String::new();
    if n < 0 {
        s.append("-");
        proof {
            reveal_strlit("-");
        }
        let wide: i128 = n as i128;
        let magnitude: u64 = (-wide) as u64;
        append_dec(&mut s, magnitude);
    } else {
        append_dec(&mut s, n as u64);
    }
    s.append(".0");
    proof {
        reveal_strlit(".0");
        assert(s@ =~= int_numeral(n as int));
    }
    s
}

/// One-dimensional data, such as vectors and arrays. Quantitative elements
/// hold the numeral text of each value; categorical elements hold raw text.
pub enum VectorData {
    Quantitative(Vec<String>),
    Categorical(Vec<String>),
}

/// Spec-level model of a two-dimensional matrix: rows of element texts. The
/// single tag leaves room for categorical matrices without breaking callers.
pub enum MatrixModel {
    Quantitative(Seq<Seq<Seq<char>>>),
}

/// Two-dimensional data, such as matrices. Each row holds the numeral texts
/// of its values.
pub enum MatrixData {
    Quantitative(Vec<Vec<String>>),
}

/// The sequence of element texts held by a vector of strings.
pub open spec fn texts_of(v: Seq<String>) -> Seq<Seq<char>> {
    v.map_values(|s: String| s@)
}

impl View for VectorData {
    type V = SeriesModel;

    open spec fn view(&self) -> SeriesModel {
        match self {
            VectorData::Quantitative(v) => SeriesModel::Quantitative(texts_of(v@)),
            VectorData::Categorical(v) => SeriesModel::Categorical(texts_of(v@)),
        }
    }
}

impl View for MatrixData {
    type V = MatrixModel;

    open spec fn view(&self) -> MatrixModel {
        match self {
            MatrixData::Quantitative(v) => MatrixModel::Quantitative(
                v@.map_values(|row: Vec<String>| texts_of(row@)),
            ),
        }
    }
}

impl VectorData {
    /// Wraps already-rendered numeral texts as a quantitative series.
    pub fn quantitative(texts: Vec<String>) -> (r: VectorData)
        ensures
            r@ == SeriesModel::Quantitative(texts_of(texts@)),
    {
        VectorData::Quantitative(texts)
    }

    /// Wraps category texts as a categorical series.
    pub fn categorical(texts: Vec<String>) -> (r: VectorData)
        ensures
            r@ == SeriesModel::Categorical(texts_of(texts@)),
    {
        VectorData::Categorical(texts)
    }

    /// The number of elements in the series.
    pub fn len(&self) -> (r: usize)
        ensures
            r == self.spec_len(),
    {
        match self {
            VectorData::Quantitative(v) => v.len(),
            VectorData::Categorical(v) => v.len(),
        }
    }

    /// The number of elements in the series model.
    pub open spec fn spec_len(&self) -> nat {
        match self@ {
            SeriesModel::Quantitative(t) => t.len(),
            SeriesModel::Categorical(t) => t.len(),
        }
    }
}

impl MatrixData {
    /// Wraps already-rendered numeral text rows as a quantitative matrix.
    pub fn quantitative(rows: Vec<Vec<String>>) -> (r: MatrixData)
        ensures
            r@ == MatrixModel::Quantitative(rows@.map_values(|row: Vec<String>| texts_of(row@))),
    {
        MatrixData::Quantitative(rows)
    }

    /// The number of rows in the matrix.
    pub fn len(&self) -> (r: usize)
        ensures
            r == self.spec_len(),
    {
        match self {
            MatrixData::Quantitative(v) => v.len(),
        }
    }

    /// The number of rows in the matrix model.
    pub open spec fn spec_len(&self) -> nat {
        match self@ {
            MatrixModel::Quantitative(rows) => rows.len(),
        }
    }
}

/// Duplicates a vector of texts, keeping every element's text.
fn clone_texts(v: &Vec<String>) -> (r: Vec<String>)
    ensures
        texts_of(r@) == texts_of(v@),
{
    let r = v.clone();
    proof {
        assert forall|i: int| 0 <= i < r@.len() implies #[trigger] r@[i]@ == v@[i]@ by {
            assert(cloned::<String>(v@[i], r@[i]));
        }
        assert(texts_of(r@) =~= texts_of(v@));
    }
    r
}

impl Clone for VectorData {
    /// Duplicates the series: the clone has the same model.
    fn clone(&self) -> (r: Self)
        ensures
            r@ == self@,
    {
        match self {
            VectorData::Quantitative(v) => VectorData::Quantitative(clone_texts(v)),
            VectorData::Categorical(v) => VectorData::Categorical(clone_texts(v)),
        }
    }
}

impl Clone for MatrixData {
    /// Duplicates the matrix: the clone has the same model.
    fn clone(&self) -> (r: Self)
        ensures
            r@ == self@,
    {
        match self {
            MatrixData::Quantitative(rows) => {
                let mut out: Vec<Vec<String>> = Vec::new();
                let mut i: usize = 0;
                while i < rows.len()
                    invariant
                        i <= rows.len(),
                        out@.len() == i,
                        forall|j: int|
                            0 <= j < i ==> texts_of(#[trigger] out@[j]@) == texts_of(rows@[j]@),
                    decreases rows.len() - i,
                {
                    out.push(clone_texts(&rows[i]));
                    i = i + 1;
                }
                proof {
                    assert(out@.map_values(|row: Vec<String>| texts_of(row@)) =~= rows@.map_values(
                        |row: Vec<String>| texts_of(row@),
                    ));
                }
                MatrixData::Quantitative(out)
            },
        }
    }
}

/// A native container that declares how it normalizes into exactly one of the
/// two canonical forms. The conversion is pure and total: it never fails.
pub trait Plottable: Sized {
    /// The canonical form this container normalizes to.
    type D: View;

    /// The model of the canonical value this container normalizes to.
    spec fn normal_view(&self) -> <Self::D as View>::V;

    /// Normalizes the container into its canonical form.
    fn to_conspire_data(&self) -> (r: Self::D)
        ensures
            r@ == self.normal_view(),
    ;
}

impl Plottable for Vec<u8> {
    type D = VectorData;

    open spec fn normal_view(&self) -> SeriesModel {
        SeriesModel::Quantitative(self@.map_values(|x: u8| int_numeral(x as int)))
    }

    fn to_conspire_data(&self) -> (r: VectorData) {
        let mut texts: Vec<String> = Vec::new();
        let mut i: usize = 0;
        while i < self.len()
            invariant
                i <= self.len(),
                texts@.len() == i,
                forall|j: int| 0 <= j < i ==> texts@[j]@ == int_numeral(self@[j] as int),
            decreases self.len() - i,
        {
            texts.push(fmt_quant_u64(self[i] as u64));
            i = i + 1;
        }
        proof {
            assert(texts_of(texts@) =~= self@.map_values(|x: u8| int_numeral(x as int)));
        }
        VectorData::Quantitative(texts)
    }
}

impl Plottable for Vec<i8> {
    type D = VectorData;

    open spec fn normal_view(&self) -> SeriesModel {
        SeriesModel::Quantitative(self@.map_values(|x: i8| int_numeral(x as int)))
    }

    fn to_conspire_data(&self) -> (r: VectorData) {
        let mut texts: Vec<String> = Vec::new();
        let mut i: usize = 0;
        while i < self.len()
            invariant
                i <= self.len(),
                texts@.len() == i,
                forall|j: int| 0 <= j < i ==> texts@[j]@ == int_numeral(self@[j] as int),
            decreases self.len() - i,
        {
            texts.push(fmt_quant_i64(self[i] as i64));
            i = i + 1;
        }
        proof {
            assert(texts_of(texts@) =~= self@.map_values(|x: i8| int_numeral(x as int)));
        }
        VectorData::Quantitative(texts)
    }
}

impl Plottable for Vec<u32> {
    type D = VectorData;

    open spec fn normal_view(&self) -> SeriesModel {
        SeriesModel::Quantitative(self@.map_values(|x: u32| int_numeral(x as int)))
    }

    fn to_conspire_data(&self) -> (r: VectorData) {
        let mut texts: Vec<String> = Vec::new();
        let mut i: usize = 0;
        while i < self.len()
            invariant
                i <= self.len(),
                texts@.len() == i,
                forall|j: int| 0 <= j < i ==> texts@[j]@ == int_numeral(self@[j] as int),
            decreases self.len() - i,
        {
            texts.push(fmt_quant_u64(self[i] as u64));
            i = i + 1;
        }
        proof {
            assert(texts_of(texts@) =~= self@.map_values(|x: u32| int_numeral(x as int)));
        }
        VectorData::Quantitative(texts)
    }
}

impl Plottable for Vec<i32> {
    type D = VectorData;

    open spec fn normal_view(&self) -> SeriesModel {
        SeriesModel::Quantitative(self@.map_values(|x: i32| int_numeral(x as int)))
    }

    fn to_conspire_data(&self) -> (r: VectorData) {
        let mut texts: Vec<String> = Vec::new();
        let mut i: usize = 0;
        while i < self.len()
            invariant
                i <= self.len(),
                texts@.len() == i,
                forall|j: int| 0 <= j < i ==> texts@[j]@ == int_numeral(self@[j] as int),
            decreases self.len() - i,
        {
            texts.push(fmt_quant_i64(self[i] as i64));
            i = i + 1;
        }
        proof {
            assert(texts_of(texts@) =~= self@.map_values(|x: i32| int_numeral(x as int)));
        }
        VectorData::Quantitative(texts)
    }
}

impl Plottable for Vec<String> {
    type D = VectorData;

    open spec fn normal_view(&self) -> SeriesModel {
        SeriesModel::Categorical(texts_of(self@))
    }

    fn to_conspire_data(&self) -> (r: VectorData) {
        let mut texts: Vec<String> = Vec::new();
        let mut i: usize = 0;
        while i < self.len()
            invariant
                i <= self.len(),
                texts@.len() == i,
                forall|j: int| 0 <= j < i ==> texts@[j]@ == self@[j]@,
            decreases self.len() - i,
        {
            texts.push(self[i].clone());
            i = i + 1;
        }
        proof {
            assert(texts_of(texts@) =~= texts_of(self@));
        }
        VectorData::Categorical(texts)
    }
}

impl Plottable for Vec<&'static str> {
    type D = VectorData;

    open spec fn normal_view(&self) -> SeriesModel {
        SeriesModel::Categorical(self@.map_values(|s: &'static str| s@))
    }

    fn to_conspire_data(&self) -> (r: VectorData) {
        let mut texts: Vec<String> = Vec::new();
        let mut i: usize = 0;
        while i < self.len()
            invariant
                i <= self.len(),
                texts@.len() == i,
                forall|j: int| 0 <= j < i ==> texts@[j]@ == self@[j]@,
            decreases self.len() - i,
        {
            texts.push(self[i].to_owned());
            i = i + 1;
        }
        proof {
            assert(texts_of(texts@) =~= self@.map_values(|s: &'static str| s@));
        }
        VectorData::Categorical(texts)
    }
}

impl Plottable for &'static str {
    type D = VectorData;

    open spec fn normal_view(&self) -> SeriesModel {
        SeriesModel::Categorical(seq![self@])
    }

    fn to_conspire_data(&self) -> (r: VectorData) {
        let mut texts: Vec<String> = Vec::new();
        texts.push((*self).to_owned());
        proof {
            assert(texts_of(texts@) =~= seq![self@]);
        }
        VectorData::Categorical(texts)
    }
}

impl Plottable for Vec<Vec<i32>> {
    type D = MatrixData;

    open spec fn normal_view(&self) -> MatrixModel {
        MatrixModel::Quantitative(
            self@.map_values(|row: Vec<i32>| row@.map_values(|x: i32| int_numeral(x as int))),
        )
    }

    fn to_conspire_data(&self) -> (r: MatrixData) {
        let mut rows: Vec<Vec<String>> = Vec::new();
        let mut i: usize = 0;
        while i < self.len()
            invariant
                i <= self.len(),
                rows@.len() == i,
                forall|j: int|
                    0 <= j < i ==> texts_of(#[trigger] rows@[j]@) == self@[j]@.map_values(
                        |x: i32| int_numeral(x as int),
                    ),
            decreases self.len() - i,
        {
            let row = self[i].to_conspire_data();
            let texts = match row {
                VectorData::Quantitative(t) => t,
                VectorData::Categorical(t) => t,
            };
            rows.push(texts);
            i = i + 1;
        }
        proof {
            assert(rows@.map_values(|row: Vec<String>| texts_of(row@)) =~= self@.map_values(
                |row: Vec<i32>| row@.map_values(|x: i32| int_numeral(x as int)),
            ));
        }
        MatrixData::Quantitative(rows)
    }
}

/// Law: normalization is tag-preserving for numeric inputs. Every supported
/// numeric container shape — of any width, one- or two-dimensional —
/// normalizes to the quantitative form; normalization itself is total (no
/// conversion carries a precondition or can fail).
pub proof fn lemma_normalize_numeric_tags(
    bytes: Vec<u8>,
    signed_bytes: Vec<i8>,
    words: Vec<u32>,
    signed_words: Vec<i32>,
    grid: Vec<Vec<i32>>,
)
    ensures
        bytes.normal_view() is Quantitative,
        signed_bytes.normal_view() is Quantitative,
        words.normal_view() is Quantitative,
        signed_words.normal_view() is Quantitative,
        grid.normal_view() is Quantitative,
{
}

/// Law: normalization is tag-preserving for textual inputs. Every supported
/// textual container shape normalizes to the categorical form, and a single
/// text normalizes to a one-element categorical series.
pub proof fn lemma_normalize_textual_tags(
    owned: Vec<String>,
    borrowed: Vec<&'static str>,
    single: &'static str,
)
    ensures
        owned.normal_view() is Categorical,
        borrowed.normal_view() is Categorical,
        single.normal_view() is Categorical,
        single.normal_view() matches SeriesModel::Categorical(t) && t.len() == 1,
{
}

} // verus!
