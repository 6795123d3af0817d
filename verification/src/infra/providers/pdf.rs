//! PDF previews: page count and document info from the raw file, text from an extractor.
use vstd::prelude::*;
use crate::domain::preview::{PreviewDocView, PreviewKind, PreviewLine, PreviewResult, PreviewWrapMode};
use crate::infra::providers::{plain_line_of, title_for};
use crate::infra::providers::archive::title_spec;
use crate::lexing::{lines_of, text_lines};
use crate::text::{chars_of, decimal, decimal_string, occurs_at, slice_chars, string_from, trim, trim_ws, views};

verus! {

/// The first position at or after `i` where `needle` occurs in `hay`.
pub open spec fn find_from(hay: Seq<char>, needle: Seq<char>, i: int) -> Option<int>
    decreases hay.len() + 1 - i,
{
    if i < 0 || i + needle.len() > hay.len() {
        None
    } else if occurs_at(hay, needle, i) {
        Some(i)
    } else {
        find_from(hay, needle, i + 1)
    }
}

/// How many times `needle` occurs in `hay` from `i` on, without overlaps (`str::matches`).
pub open spec fn count_from(hay: Seq<char>, needle: Seq<char>, i: int) -> nat
    decreases hay.len() + 1 - i,
{
    if needle.len() == 0 {
        0
    } else {
        match find_from(hay, needle, i) {
            Some(j) => if i <= j && j + needle.len() <= hay.len() {
                1 + count_from(hay, needle, j + needle.len())
            } else {
                0
            },
            None => 0,
        }
    }
}

proof fn lemma_find_from_bounds(hay: Seq<char>, needle: Seq<char>, i: int)
    ensures
        match find_from(hay, needle, i) {
            Some(j) => i <= j && occurs_at(hay, needle, j),
            None => true,
        },
    decreases hay.len() + 1 - i,
{
    if !(i < 0 || i + needle.len() > hay.len()) && !occurs_at(hay, needle, i) {
        lemma_find_from_bounds(hay, needle, i + 1);
    }
}

fn occurs(hay: &Vec<char>, needle: &Vec<char>, i: usize) -> (r: bool)
    requires
        i + needle.len() <= hay.len(),
    ensures
        r == occurs_at(hay@, needle@, i as int),
{
    let mut k: usize = 0;
    while k < needle.len()
        invariant
            k <= needle.len(),
            i + needle.len() <= hay.len(),
            forall|j: int| 0 <= j < k ==> hay@[i + j] == needle@[j],
        decreases needle.len() - k,
    {
        if hay[i + k] != needle[k] {
            assert(hay@.subrange(i as int, i + needle.len())[k as int] != needle@[k as int]);
            return false;
        }
        k = k + 1;
    }
    assert(hay@.subrange(i as int, i + needle.len()) =~= needle@);
    true
}

/// The first occurrence of `needle` at or after `i`.
fn find_chars(hay: &Vec<char>, needle: &Vec<char>, i: usize) -> (r: Option<usize>)
    ensures
        match r {
            Some(j) => find_from(hay@, needle@, i as int) == Some(j as int),
            None => find_from(hay@, needle@, i as int) is None,
        },
{
    if needle.len() == 0 {
        if i <= hay.len() {
            assert(occurs_at(hay@, needle@, i as int)) by {
                assert(hay@.subrange(i as int, i as int) =~= needle@);
            }
            return Some(i);
        }
        return None;
    }
    let mut k = i;
    while k <= hay.len() && needle.len() <= hay.len() - k
        invariant
            i <= k,
            needle.len() > 0,
            find_from(hay@, needle@, i as int) == find_from(hay@, needle@, k as int),
        decreases hay.len() + 1 - k,
    {
        if occurs(hay, needle, k) {
            return Some(k);
        }
        k = k + 1;
    }
    None
}

pub fn count_matches(hay: &Vec<char>, needle: &Vec<char>) -> (r: usize)
    ensures
        r == count_from(hay@, needle@, 0),
{
    if needle.len() == 0 {
        return 0;
    }
    let mut count: usize = 0;
    let mut i: usize = 0;
    while i <= hay.len()
        invariant
            needle.len() > 0,
            count + count_from(hay@, needle@, i as int) == count_from(hay@, needle@, 0),
            count <= i,
        decreases hay.len() + 1 - i,
    {
        proof {
            lemma_find_from_bounds(hay@, needle@, i as int);
        }
        match find_chars(hay, needle, i) {
            Some(j) => {
                count = count + 1;
                i = j + needle.len();
            },
            None => {
                return count;
            },
        }
    }
    proof {
        assert(find_from(hay@, needle@, i as int) is None);
    }
    count
}

/// The value of a PDF info entry: after the first `key`, the text between the next `(`
/// and the following `)`, trimmed.
pub open spec fn pdf_value_spec(content: Seq<char>, key: Seq<char>) -> Option<Seq<char>> {
    match find_from(content, key, 0) {
        Some(k) => {
            let tail = content.skip(k + key.len());
            match find_from(tail, seq!['('], 0) {
                Some(o) => {
                    let rest = tail.skip(o + 1);
                    match find_from(rest, seq![')'], 0) {
                        Some(c) => Some(trim_ws(rest.take(c))),
                        None => None,
                    }
                },
                None => None,
            }
        },
        None => None,
    }
}

pub fn find_pdf_value(content: &Vec<char>, key: &str) -> (r: Option<String>)
    ensures
        crate::domain::preview::opt_view(r) == pdf_value_spec(content@, key@),
{
    let kv = chars_of(key);
    proof {
        lemma_find_from_bounds(content@, kv@, 0);
    }
    let k = match find_chars(content, &kv, 0) {
        Some(k) => k,
        None => return None,
    };
    assert(occurs_at(content@, kv@, k as int));
    assert(k + kv@.len() <= content@.len());
    assert(k + kv.len() <= content.len());
    let tail = slice_chars(content, k + kv.len(), content.len());
    assert(tail@ =~= content@.skip(k + kv@.len()));
    let open = vec!['('];
    assert(open@ =~= seq!['(']);
    proof {
        lemma_find_from_bounds(tail@, open@, 0);
    }
    let o = match find_chars(&tail, &open, 0) {
        Some(o) => o,
        None => return None,
    };
    let rest = slice_chars(&tail, o + 1, tail.len());
    assert(rest@ =~= tail@.skip(o + 1));
    let close = vec![')'];
    assert(close@ =~= seq![')']);
    proof {
        lemma_find_from_bounds(rest@, close@, 0);
    }
    let c = match find_chars(&rest, &close, 0) {
        Some(c) => c,
        None => return None,
    };
    let inner = slice_chars(&rest, 0, c);
    assert(inner@ =~= rest@.take(c as int));
    let s = string_from(&inner);
    Some(trim(s.as_str()))
}

/// How many pages the text extractor is asked for.
pub fn pdf_page_limit(viewport_hint: usize) -> (r: usize)
    ensures
        r == (if viewport_hint > 5 { viewport_hint } else { 5 }),
{
    if viewport_hint > 5 { viewport_hint } else { 5 }
}

pub open spec fn max_nat(a: nat, b: nat) -> nat {
    if a >= b { a } else { b }
}

/// The preview of a PDF from its raw text (bytes read as UTF-8, invalid ones replaced) and
/// what the text extractor printed when it succeeded: the first lines of that text, or a
/// placeholder and a warning; the page count and the title and author where present.
pub open spec fn pdf_result_spec(path: Seq<char>, raw: Seq<char>, extracted: Option<Seq<char>>, viewport_hint: nat) -> PreviewDocView {
    let pages = max_nat(count_from(raw, "/Type /Page"@, 0), count_from(raw, "/Count "@, 0));
    let title = match pdf_value_spec(raw, "/Title"@) { Some(t) => t, None => Seq::empty() };
    let author = match pdf_value_spec(raw, "/Author"@) { Some(a) => a, None => Seq::empty() };
    let limit = max_nat(viewport_hint, 40);
    let ls = match extracted {
        Some(out) => text_lines(out).take(if text_lines(out).len() < limit { text_lines(out).len() as int } else { limit as int }),
        None => Seq::empty(),
    };
    let empty = ls.len() == 0;
    PreviewDocView {
        kind: PreviewKind::Pdf,
        title: title_spec(path),
        subtitle: Some(path),
        provider_name: "PDF"@,
        degraded: empty,
        metadata: seq![("页数"@, decimal(pages))]
            + (if title.len() > 0 { seq![("标题"@, title)] } else { Seq::empty() })
            + (if author.len() > 0 { seq![("作者"@, author)] } else { Seq::empty() }),
        warnings: if empty { seq!["当前环境没有可靠的 PDF 文本提取器"@] } else { Seq::empty() },
        actions: seq!["o：外部打开"@],
        wrap_mode: PreviewWrapMode::NoWrap,
        lines: if empty { seq![plain_line_of("PDF 文本预览不可用"@)] } else { ls.map_values(|l: Seq<char>| plain_line_of(l)) },
        first_line_number: 1,
    }
}

pub fn pdf_preview_result(path: &str, raw: &str, extracted: Option<&str>, viewport_hint: usize) -> (r: PreviewResult)
    ensures
        r@ == pdf_result_spec(path@, raw@, match extracted { Some(e) => Some(e@), None => None }, viewport_hint as nat),
{
    let rc = chars_of(raw);
    let a = count_matches(&rc, &chars_of("/Type /Page"));
    let b = count_matches(&rc, &chars_of("/Count "));
    let pages = if a >= b { a } else { b };
    let title = match find_pdf_value(&rc, "/Title") {
        Some(t) => t,
        None => String::new(),
    };
    let author = match find_pdf_value(&rc, "/Author") {
        Some(t) => t,
        None => String::new(),
    };
    let limit = if viewport_hint > 40 { viewport_hint } else { 40 };
    let mut lines: Vec<PreviewLine> = Vec::new();
    let ghost ls: Seq<Seq<char>> = match extracted {
        Some(e) => text_lines(e@).take(if text_lines(e@).len() < limit { text_lines(e@).len() as int } else { limit as int }),
        None => Seq::empty(),
    };
    match extracted {
        Some(out) => {
            let all = lines_of(out);
            let n = if all.len() < limit { all.len() } else { limit };
            let mut i: usize = 0;
            while i < n
                invariant
                    i <= n <= all.len(),
                    views(all@) == text_lines(out@),
                    n == (if all.len() < limit { all.len() } else { limit }),
                    views(lines@) == views(all@).take(i as int).map_values(|l: Seq<char>| plain_line_of(l)),
                decreases n - i,
            {
                let l = PreviewLine::plain(all[i].as_str());
                let ghost before = lines@;
                lines.push(l);
                assert(views(lines@) =~= views(before).push(l@));
                assert(views(all@).take(i + 1).map_values(|l: Seq<char>| plain_line_of(l)) =~= views(all@).take(i as int).map_values(|l: Seq<char>| plain_line_of(l)).push(plain_line_of(all@[i as int]@)));
                i = i + 1;
            }
            assert(views(lines@) =~= ls.map_values(|l: Seq<char>| plain_line_of(l)));
        },
        None => {
            assert(views(lines@) =~= ls.map_values(|l: Seq<char>| plain_line_of(l)));
        },
    }
    let empty = lines.len() == 0;
    let mut warnings: Vec<String> = Vec::new();
    if empty {
        warnings.push(String::from_str("当前环境没有可靠的 PDF 文本提取器"));
        lines.push(PreviewLine::plain("PDF 文本预览不可用"));
    }
    let mut metadata: Vec<(String, String)> = Vec::new();
    metadata.push((String::from_str("页数"), decimal_string(pages as u64)));
    let has_title = title.as_str().unicode_len() > 0;
    let has_author = author.as_str().unicode_len() > 0;
    if has_title {
        metadata.push((String::from_str("标题"), title));
    }
    if has_author {
        metadata.push((String::from_str("作者"), author));
    }
    let mut actions: Vec<String> = Vec::new();
    actions.push(String::from_str("o：外部打开"));
    let ghost spec = pdf_result_spec(path@, raw@, match extracted { Some(e) => Some(e@), None => None }, viewport_hint as nat);
    proof {
        assert(views(metadata@) =~= spec.metadata);
        assert(views(warnings@) =~= spec.warnings);
        assert(views(lines@) =~= spec.lines);
        assert(views(actions@) =~= seq!["o：外部打开"@]);
    }
    PreviewResult {
        kind: PreviewKind::Pdf,
        title: title_for(path),
        subtitle: Some(String::from_str(path)),
        provider_name: String::from_str("PDF"),
        degraded: empty,
        metadata,
        warnings,
        actions,
        wrap_mode: PreviewWrapMode::NoWrap,
        lines,
        first_line_number: 1,
    }
}

} // verus!
