//! The operations that the JavaScript bindings expose, on plain values:
//! choosing the language by name, parsing and lowering with errors as
//! messages, and the JSON envelope that batch results are returned in.
use vstd::prelude::*;

use crate::cst::CstNode;
use crate::ir::IrModule;
use crate::lower::{lower, spec_lower};
use crate::parser::{cst_well_formed, parse, parsed_cst, Language};
use crate::text::{concat, str_eq};
use vstd::string::StrSliceExecFns;

verus! {

/// The language that a name selects, if any.
pub open spec fn language_named(name: Seq<char>) -> Option<Language> {
    if name == "javascript"@ || name == "js"@ {
        Some(Language::JavaScript)
    } else if name == "typescript"@ || name == "ts"@ {
        Some(Language::TypeScript)
    } else if name == "tsx"@ {
        Some(Language::Tsx)
    } else {
        None
    }
}

/// The message for a language name that selects no language.
pub open spec fn unsupported_language_message(name: Seq<char>) -> Seq<char> {
    "unsupported language: "@ + name
}

/// The language that `language` names: `javascript` or `js`, `typescript`
/// or `ts`, or `tsx`; any other name is refused with a message.
pub fn parse_language(language: &str) -> (r: Result<Language, String>)
    ensures
        match language_named(language@) {
            Some(l) => r == Ok::<Language, String>(l),
            None => r matches Err(m) && m@ == unsupported_language_message(language@),
        },
{
    if str_eq(language, "javascript") || str_eq(language, "js") {
        Ok(Language::JavaScript)
    } else if str_eq(language, "typescript") || str_eq(language, "ts") {
        Ok(Language::TypeScript)
    } else if str_eq(language, "tsx") {
        Ok(Language::Tsx)
    } else {
        Err(concat("unsupported language: ", language))
    }
}

/// Parses `source` in the language that `language` names. Fails, with the
/// message of `parse_language`, exactly where the name selects no language.
pub fn parse_internal(source: &str, language: &str) -> (r: Result<CstNode, String>)
    ensures
        match language_named(language@) {
            None => r matches Err(m) && m@ == unsupported_language_message(language@),
            Some(l) => r matches Ok(cst) && parsed_cst(cst, source@, l) && cst_well_formed(cst, source@),
        },
{
    let lang = match parse_language(language) {
        Ok(l) => l,
        Err(m) => {
            return Err(m);
        },
    };
    match parse(source, lang) {
        Ok(cst) => Ok(cst),
        Err(e) => Err(e.message()),
    }
}

/// Parses `source` in the language that `language` names and lowers the
/// tree. Fails, with the message of `parse_language`, exactly where the name
/// selects no language; parsing and lowering themselves never fail.
pub fn lower_internal(source: &str, language: &str) -> (r: Result<IrModule, String>)
    ensures
        match language_named(language@) {
            None => r matches Err(m) && m@ == unsupported_language_message(language@),
            Some(l) => r matches Ok(ir) && exists|cst: CstNode|
                parsed_cst(cst, source@, l) && ir@ == #[trigger] spec_lower(cst, l, source@),
        },
{
    let lang = match parse_language(language) {
        Ok(l) => l,
        Err(m) => {
            return Err(m);
        },
    };
    let cst = match parse(source, lang) {
        Ok(cst) => cst,
        Err(e) => {
            return Err(e.message());
        },
    };
    match lower(&cst, lang, source) {
        Ok(ir) => {
            assert(parsed_cst(cst, source@, lang) && ir@ == spec_lower(cst, lang, source@));
            Ok(ir)
        },
        Err(e) => Err(e.message()),
    }
}

/// `c` as it stands inside a JSON string: a backslash or a double quote
/// preceded by a backslash, any other character as it is.
pub open spec fn escape_char(c: char) -> Seq<char> {
    if c == '\\' {
        seq!['\\', '\\']
    } else if c == '"' {
        seq!['\\', '"']
    } else {
        seq![c]
    }
}

/// `s` with every backslash and double quote escaped.
pub open spec fn escape_text(s: Seq<char>) -> Seq<char>
    decreases s.len(),
{
    if s.len() == 0 {
        Seq::empty()
    } else {
        escape_text(s.drop_last()) + escape_char(s.last())
    }
}

/// Escaping distributes over concatenation.
pub proof fn lemma_escape_concat(a: Seq<char>, b: Seq<char>)
    ensures
        escape_text(a + b) == escape_text(a) + escape_text(b),
    decreases b.len(),
{
    if b.len() == 0 {
        assert(a + b =~= a);
        assert(escape_text(b) =~= Seq::<char>::empty());
        assert(escape_text(a) + escape_text(b) =~= escape_text(a));
    } else {
        lemma_escape_concat(a, b.drop_last());
        assert((a + b).drop_last() =~= a + b.drop_last());
        assert((a + b).last() == b.last());
        assert(escape_text(a) + escape_text(b.drop_last()) + escape_char(b.last()) =~= escape_text(a)
            + (escape_text(b.drop_last()) + escape_char(b.last())));
    }
}

/// Text without backslashes and double quotes is left as it is.
proof fn lemma_escape_plain(s: Seq<char>)
    requires
        forall|k: int| 0 <= k < s.len() ==> s[k] != '\\' && s[k] != '"',
    ensures
        escape_text(s) == s,
    decreases s.len(),
{
    if s.len() > 0 {
        lemma_escape_plain(s.drop_last());
        assert(escape_text(s.drop_last()) + escape_char(s.last()) =~= s);
    }
}

/// Escapes every backslash and double quote in `s`, so that it can stand
/// inside a JSON string.
pub fn escape_json_text(s: &str) -> (r: String)
    ensures
        r@ == escape_text(s@),
{
    let n = s.unicode_len();
    let mut out = String::new();
    let mut start: usize = 0;
    let mut i: usize = 0;
    while i < n
        invariant
            n == s@.len(),
            start <= i <= n,
            out@ == escape_text(s@.subrange(0, start as int)),
            forall|k: int| start <= k < i ==> s@[k] != '\\' && s@[k] != '"',
        decreases n - i,
    {
        let c = s.get_char(i);
        if c == '\\' || c == '"' {
            let plain = s.substring_char(start, i);
            proof {
                lemma_escape_plain(plain@);
                lemma_escape_concat(s@.subrange(0, start as int), plain@);
                assert(s@.subrange(0, start as int) + plain@ =~= s@.subrange(0, i as int));
                lemma_escape_concat(s@.subrange(0, i as int), seq![c]);
                assert(s@.subrange(0, i as int) + seq![c] =~= s@.subrange(0, i + 1));
                assert(escape_text(seq![c]) == escape_char(c)) by {
                    assert(seq![c].drop_last() =~= Seq::<char>::empty());
                    assert(escape_text(Seq::<char>::empty()) =~= Seq::<char>::empty());
                    assert(Seq::<char>::empty() + escape_char(c) =~= escape_char(c));
                }
                reveal_strlit("\\\\");
                reveal_strlit("\\\"");
            }
            out.append(plain);
            if c == '\\' {
                out.append("\\\\");
            } else {
                out.append("\\\"");
            }
            start = i + 1;
        }
        i = i + 1;
    }
    let rest = s.substring_char(start, n);
    proof {
        lemma_escape_plain(rest@);
        lemma_escape_concat(s@.subrange(0, start as int), rest@);
        assert(s@.subrange(0, start as int) + rest@ =~= s@);
    }
    out.append(rest);
    out
}

/// The JSON envelope of a result: `{"success":true,"result":<json>}` around
/// the JSON text of a success, `{"success":false,"error":"<message>"}` around
/// the escaped message of a failure.
pub open spec fn result_envelope(res: Result<Seq<char>, Seq<char>>) -> Seq<char> {
    match res {
        Ok(json) => "{\"success\":true,\"result\":"@ + json + "}"@,
        Err(message) => "{\"success\":false,\"error\":\""@ + escape_text(message) + "\"}"@,
    }
}

/// Wraps a result in its JSON envelope; `res` holds the JSON text of a
/// success or the message of a failure.
pub fn wrap_result_json(res: Result<String, String>) -> (r: String)
    ensures
        r@ == result_envelope(
            match res {
                Ok(j) => Ok(j@),
                Err(m) => Err(m@),
            },
        ),
{
    match res {
        Ok(json) => {
            let head = concat("{\"success\":true,\"result\":", json.as_str());
            concat(head.as_str(), "}")
        },
        Err(message) => {
            let escaped = escape_json_text(message.as_str());
            let head = concat("{\"success\":false,\"error\":\"", escaped.as_str());
            concat(head.as_str(), "\"}")
        },
    }
}

} // verus!
