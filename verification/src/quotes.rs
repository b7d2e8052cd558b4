use vstd::prelude::*;

use crate::request::{market_type, spec_market_type};
use crate::text::{
    chars_of, chars_start_with, has_prefix, lemma_split_on_join, lemma_split_on_nonempty, pieces_view, split_chars,
    split_on, string_of, string_of_range, trim, trim_chars,
};

verus! {

/// The text `encoding_rs::GBK.decode` yields for a byte string.
pub uninterp spec fn gbk_decoded(bytes: Seq<u8>) -> Seq<char>;

/// Decodes a response body with `encoding_rs::Encoding::decode` on `GBK`.
/// That call sniffs a byte-order mark first (a UTF-8 or UTF-16 BOM switches
/// the decoder and is dropped), replaces malformed sequences with U+FFFD,
/// and depends on the bytes alone, which `gbk_decoded` names. For input that
/// is all ASCII no BOM can match and the text borrows the bytes unchanged,
/// so each byte becomes the character with the same code. The call panics
/// only when its output buffer size overflows, which the bound on the length
/// rules out.
#[verifier::external_body]
fn decode_gbk(bytes: &[u8]) -> (text: String)
    requires
        bytes@.len() * 4 + 8 <= isize::MAX,
    ensures
        text@ == gbk_decoded(bytes@),
        (forall|i: int| 0 <= i < bytes@.len() ==> #[trigger] bytes@[i] < 0x80) ==> text@
            == bytes@.map_values(|b: u8| b as char),
{
    let (text, _, _) = encoding_rs::GBK.decode(bytes);
    text.into_owned()
}

/// One index quote as the quote service sends it. The numeric fields keep
/// the text of the response; turning them into numbers is left to the
/// caller.
pub struct IndexQuote {
    pub code: String,
    pub name: String,
    pub current: String,
    pub prev_close: String,
    pub open: String,
    pub high: String,
    pub low: String,
    pub change: String,
    pub change_pct: String,
    pub volume: String,
    pub amount: String,
    pub market: String,
    pub update_time: String,
}

/// The characters of each field of an `IndexQuote`.
pub struct QuoteModel {
    pub code: Seq<char>,
    pub name: Seq<char>,
    pub current: Seq<char>,
    pub prev_close: Seq<char>,
    pub open: Seq<char>,
    pub high: Seq<char>,
    pub low: Seq<char>,
    pub change: Seq<char>,
    pub change_pct: Seq<char>,
    pub volume: Seq<char>,
    pub amount: Seq<char>,
    pub market: Seq<char>,
    pub update_time: Seq<char>,
}

impl View for IndexQuote {
    type V = QuoteModel;

    open spec fn view(&self) -> QuoteModel {
        QuoteModel {
            code: self.code@,
            name: self.name@,
            current: self.current@,
            prev_close: self.prev_close@,
            open: self.open@,
            high: self.high@,
            low: self.low@,
            change: self.change@,
            change_pct: self.change_pct@,
            volume: self.volume@,
            amount: self.amount@,
            market: self.market@,
            update_time: self.update_time@,
        }
    }
}

/// The quote a trimmed line `v_<code>="f0~f1~...";` stands for: the code is
/// the part before the first `=`, trimmed, without its `v_` prefix; the
/// fields are the `~`-separated pieces between the first and the second
/// `"`. A line with no `"`, a code without `v_`, or fewer than 38 fields
/// stands for none.
pub open spec fn quote_of_line(line: Seq<char>) -> Option<QuoteModel> {
    let parts = split_on(line, '"');
    let code_raw = trim(split_on(line, '=')[0]);
    if parts.len() < 2 || !has_prefix(code_raw, "v_"@) {
        None
    } else {
        let f = split_on(parts[1], '~');
        let code = code_raw.skip("v_"@.len() as int);
        if f.len() < 38 {
            None
        } else {
            Some(
                QuoteModel {
                    code: code,
                    name: f[1],
                    current: f[3],
                    prev_close: f[4],
                    open: f[5],
                    high: f[33],
                    low: f[34],
                    change: f[31],
                    change_pct: f[32],
                    volume: f[36],
                    amount: f[37],
                    market: spec_market_type(code),
                    update_time: f[30],
                },
            )
        }
    }
}

/// The quotes of a sequence of lines: each line is trimmed, blank lines and
/// lines that stand for no quote are passed over, order is kept.
pub open spec fn quotes_of_lines(lines: Seq<Seq<char>>) -> Seq<QuoteModel>
    decreases lines.len(),
{
    if lines.len() == 0 {
        Seq::empty()
    } else {
        let prev = quotes_of_lines(lines.drop_last());
        let line = trim(lines.last());
        if line.len() == 0 {
            prev
        } else {
            match quote_of_line(line) {
                Some(q) => prev.push(q),
                None => prev,
            }
        }
    }
}

/// The quotes of a decoded response: its lines are the pieces between
/// line feeds (a carriage return before a line feed is white space and goes
/// with the trimming).
pub open spec fn index_quotes(text: Seq<char>) -> Seq<QuoteModel> {
    quotes_of_lines(split_on(text, '\n'))
}

/// The views of a list of quotes.
pub open spec fn quote_views(qs: Seq<IndexQuote>) -> Seq<QuoteModel> {
    qs.map_values(|q: IndexQuote| q@)
}

/// The quote of one trimmed line, if it stands for one.
pub fn quote_from_line(line: &Vec<char>) -> (res: Option<IndexQuote>)
    ensures
        match res {
            Some(q) => quote_of_line(line@) == Some(q@),
            None => quote_of_line(line@) is None,
        },
{
    let parts = split_chars(line, '"');
    if parts.len() < 2 {
        return None;
    }
    let eqs = split_chars(line, '=');
    proof {
        lemma_split_on_nonempty(line@, '=');
    }
    let code_raw = trim_chars(&eqs[0]);
    if !chars_start_with(&code_raw, "v_") {
        return None;
    }
    let f = split_chars(&parts[1], '~');
    if f.len() < 38 {
        return None;
    }
    let prefix = chars_of("v_");
    let code = string_of_range(&code_raw, prefix.len(), code_raw.len());
    assert(code_raw@.subrange(prefix@.len() as int, code_raw@.len() as int) =~= code_raw@.skip(
        prefix@.len() as int,
    ));
    let market = market_type(code.as_str());
    Some(
        IndexQuote {
            code: code,
            name: string_of(&f[1]),
            current: string_of(&f[3]),
            prev_close: string_of(&f[4]),
            open: string_of(&f[5]),
            high: string_of(&f[33]),
            low: string_of(&f[34]),
            change: string_of(&f[31]),
            change_pct: string_of(&f[32]),
            volume: string_of(&f[36]),
            amount: string_of(&f[37]),
            market: market,
            update_time: string_of(&f[30]),
        },
    )
}

/// Parses the decoded quote response into the quotes it holds, in order.
pub fn parse_index_text(text: &str) -> (res: Vec<IndexQuote>)
    ensures
        quote_views(res@) == index_quotes(text@),
{
    let cs = chars_of(text);
    let lines = split_chars(&cs, '\n');
    let ghost all = pieces_view(lines@);
    let mut out: Vec<IndexQuote> = Vec::new();
    let mut i: usize = 0;
    assert(all.take(0) =~= Seq::<Seq<char>>::empty());
    while i < lines.len()
        invariant
            all == pieces_view(lines@),
            all == split_on(text@, '\n'),
            i <= lines@.len(),
            quote_views(out@) == quotes_of_lines(all.take(i as int)),
        decreases lines.len() - i,
    {
        assert(all.take(i + 1).drop_last() =~= all.take(i as int));
        assert(all.take(i + 1).last() == lines@[i as int]@);
        let line = trim_chars(&lines[i]);
        if line.len() > 0 {
            match quote_from_line(&line) {
                Some(q) => {
                    let ghost before = quote_views(out@);
                    out.push(q);
                    assert(quote_views(out@) =~= before.push(q@));
                },
                None => {},
            }
        }
        i = i + 1;
    }
    assert(all.take(lines@.len() as int) =~= all);
    out
}

/// Decodes a GBK response body and parses the quotes it holds.
pub fn parse_index_response(body: &[u8]) -> (res: Vec<IndexQuote>)
    requires
        body@.len() * 4 + 8 <= isize::MAX,
    ensures
        quote_views(res@) == index_quotes(gbk_decoded(body@)),
{
    let text = decode_gbk(body);
    parse_index_text(text.as_str())
}

} // verus!

verus! {

proof fn lemma_quotes_of_lines_concat(xs: Seq<Seq<char>>, ys: Seq<Seq<char>>)
    ensures
        quotes_of_lines(xs + ys) == quotes_of_lines(xs) + quotes_of_lines(ys),
    decreases ys.len(),
{
    if ys.len() == 0 {
        assert(xs + ys =~= xs);
        assert(quotes_of_lines(xs) + quotes_of_lines(ys) =~= quotes_of_lines(xs));
    } else {
        lemma_quotes_of_lines_concat(xs, ys.drop_last());
        assert((xs + ys).drop_last() =~= xs + ys.drop_last());
        assert((xs + ys).last() == ys.last());
        let p = quotes_of_lines(xs);
        let q = quotes_of_lines(ys.drop_last());
        let line = trim(ys.last());
        if line.len() > 0 {
            match quote_of_line(line) {
                Some(m) => {
                    assert((p + q).push(m) =~= p + q.push(m));
                },
                None => {},
            }
        }
    }
}

/// Each line of the response is read on its own: the quotes of two texts
/// joined by a line feed are the quotes of the first followed by those of
/// the second.
pub proof fn law_lines_parse_independently(a: Seq<char>, b: Seq<char>)
    ensures
        index_quotes(a + seq!['\n'] + b) == index_quotes(a) + index_quotes(b),
{
    lemma_split_on_join(a, b, '\n');
    lemma_quotes_of_lines_concat(split_on(a, '\n'), split_on(b, '\n'));
}

proof fn lemma_quotes_market(lines: Seq<Seq<char>>)
    ensures
        forall|i: int|
            0 <= i < quotes_of_lines(lines).len() ==> (#[trigger] quotes_of_lines(lines)[i]).market
                == spec_market_type(quotes_of_lines(lines)[i].code),
    decreases lines.len(),
{
    if lines.len() > 0 {
        lemma_quotes_of_lines_concat(lines.drop_last(), seq![lines.last()]);
        lemma_quotes_market(lines.drop_last());
    }
}

/// The market of every parsed quote is the one its code belongs to.
pub proof fn law_quote_market_follows_code(text: Seq<char>)
    ensures
        forall|i: int|
            0 <= i < index_quotes(text).len() ==> (#[trigger] index_quotes(text)[i]).market
                == spec_market_type(index_quotes(text)[i].code),
{
    lemma_quotes_market(split_on(text, '\n'));
}

} // verus!

verus! {

/// A line stands for a quote exactly when it has a `"`, its part before the
/// first `=` begins (after trimming) with `v_`, and the text after the first
/// `"` (up to the next one) has at least 38 `~`-separated fields; each field
/// of the quote is then the field at a fixed position counted from the
/// start, and the code is the trimmed part before `=` without `v_`.
pub proof fn law_quote_fields_by_position(line: Seq<char>)
    ensures
        ({
            let parts = split_on(line, '"');
            let code_raw = trim(split_on(line, '=')[0]);
            let f = split_on(parts[1], '~');
            &&& quote_of_line(line) is Some <==> (parts.len() >= 2 && code_raw.len() >= 2
                && code_raw[0] == 'v' && code_raw[1] == '_' && f.len() >= 38)
            &&& quote_of_line(line) matches Some(q) ==> {
                &&& q.code == code_raw.skip(2)
                &&& q.name == f[1]
                &&& q.current == f[3]
                &&& q.prev_close == f[4]
                &&& q.open == f[5]
                &&& q.update_time == f[30]
                &&& q.change == f[31]
                &&& q.change_pct == f[32]
                &&& q.high == f[33]
                &&& q.low == f[34]
                &&& q.volume == f[36]
                &&& q.amount == f[37]
            }
        }),
{
    reveal_strlit("v_");
    let code_raw = trim(split_on(line, '=')[0]);
    if code_raw.len() >= 2 && code_raw[0] == 'v' && code_raw[1] == '_' {
        assert(code_raw.subrange(0, 2) =~= "v_"@);
    } else if has_prefix(code_raw, "v_"@) {
        assert(code_raw[0] == code_raw.subrange(0, 2)[0]);
        assert(code_raw[1] == code_raw.subrange(0, 2)[1]);
    }
}

/// Fields after the 38th do not matter: two quote lines with the same code
/// part and the same first 38 fields stand for the same quote, however many
/// fields follow.
pub proof fn law_quote_ignores_trailing_fields(l1: Seq<char>, l2: Seq<char>)
    requires
        split_on(l1, '"').len() >= 2,
        split_on(l2, '"').len() >= 2,
        trim(split_on(l1, '=')[0]) == trim(split_on(l2, '=')[0]),
        split_on(split_on(l1, '"')[1], '~').len() >= 38,
        split_on(split_on(l2, '"')[1], '~').len() >= 38,
        forall|i: int|
            0 <= i < 38 ==> #[trigger] split_on(split_on(l1, '"')[1], '~')[i] == split_on(
                split_on(l2, '"')[1],
                '~',
            )[i],
    ensures
        quote_of_line(l1) == quote_of_line(l2),
{
    let f1 = split_on(split_on(l1, '"')[1], '~');
    let f2 = split_on(split_on(l2, '"')[1], '~');
    assert(f1[1] == f2[1]);
    assert(f1[3] == f2[3]);
    assert(f1[4] == f2[4]);
    assert(f1[5] == f2[5]);
    assert(f1[30] == f2[30]);
    assert(f1[31] == f2[31]);
    assert(f1[32] == f2[32]);
    assert(f1[33] == f2[33]);
    assert(f1[34] == f2[34]);
    assert(f1[36] == f2[36]);
    assert(f1[37] == f2[37]);
}

} // verus!
