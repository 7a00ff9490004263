//! The normalization cascade: the fixed, ordered list of rewrite rules that
//! runs over the text before the boundary scan. Order is load-bearing: later
//! rules rely on earlier ones having already run. Each rule's pattern text is
//! pinned here, both for the built rules and at the specification level.

use vstd::prelude::*;

use crate::rules::{domain_masked, rewritten, MaskRule, Rule};

verus! {

/// The pattern/replacement pairs of a built rule list.
pub open spec fn rule_pairs(rs: Seq<Rule>) -> Seq<(Seq<char>, Seq<char>)> {
    rs.map_values(|r: Rule| r.v())
}

/// The text after the given rewrite rules have run over it, in order.
pub open spec fn apply_rules(rs: Seq<(Seq<char>, Seq<char>)>, t: Seq<char>) -> Seq<char>
    decreases rs.len(),
{
    if rs.len() == 0 {
        t
    } else {
        apply_rules(rs.drop_first(), rewritten(rs[0].0, t, rs[0].1))
    }
}

proof fn lemma_apply_rules_snoc(rs: Seq<(Seq<char>, Seq<char>)>, t: Seq<char>)
    requires
        rs.len() > 0,
    ensures
        apply_rules(rs, t) == rewritten(
            rs.last().0,
            apply_rules(rs.drop_last(), t),
            rs.last().1,
        ),
    decreases rs.len(),
{
    let t1 = rewritten(rs[0].0, t, rs[0].1);
    assert(apply_rules(rs, t) == apply_rules(rs.drop_first(), t1));
    if rs.len() == 1 {
        assert(rs.drop_first() =~= Seq::<(Seq<char>, Seq<char>)>::empty());
        assert(rs.drop_last() =~= Seq::<(Seq<char>, Seq<char>)>::empty());
        assert(apply_rules(rs.drop_first(), t1) == t1);
        assert(apply_rules(rs.drop_last(), t) == t);
        assert(rs.last() == rs[0]);
    } else {
        lemma_apply_rules_snoc(rs.drop_first(), t1);
        assert(rs.drop_first().last() == rs.last());
        assert(rs.drop_first().drop_last() =~= rs.drop_last().drop_first());
        assert(rs.drop_last()[0] == rs[0]);
        assert(rs.drop_last().len() > 0);
        assert(apply_rules(rs.drop_last(), t) == apply_rules(
            rs.drop_last().drop_first(),
            rewritten(rs.drop_last()[0].0, t, rs.drop_last()[0].1),
        ));
        assert(apply_rules(rs.drop_last(), t) == apply_rules(rs.drop_first().drop_last(), t1));
    }
}

/// Runs every rule over the text, first to last.
pub(crate) fn apply_all(rules: &Vec<Rule>, text: String) -> (r: String)
    ensures
        r@ == apply_rules(rule_pairs(rules@), text@),
{
    let ghost t0 = text@;
    let ghost prs = rule_pairs(rules@);
    let mut cur = text;
    let mut i: usize = 0;
    proof {
        assert(prs.take(0) =~= Seq::<(Seq<char>, Seq<char>)>::empty());
    }
    while i < rules.len()
        invariant
            i <= rules@.len(),
            prs == rule_pairs(rules@),
            cur@ == apply_rules(prs.take(i as int), t0),
        decreases rules@.len() - i,
    {
        let next = rules[i].apply(cur.as_str());
        proof {
            lemma_apply_rules_snoc(prs.take(i as int + 1), t0);
            assert(prs.take(i as int + 1).drop_last() =~= prs.take(i as int));
            assert(prs.take(i as int + 1).last() == prs[i as int]);
        }
        cur = next;
        i = i + 1;
    }
    proof {
        assert(prs.take(rules@.len() as int) =~= prs);
    }
    cur
}

/// Appends one freshly built rule to the list.
fn push_rule(rules: &mut Vec<Rule>, pat: String, rep: String)
    ensures
        rule_pairs(final(rules)@) == rule_pairs(old(rules)@).push((pat@, rep@)),
{
    let ghost before = rules@;
    let r = Rule::new(pat, rep);
    rules.push(r);
    proof {
        assert(rule_pairs(rules@) =~= rule_pairs(before).push((pat@, rep@)));
    }
}

/// The pattern of the domain-masking pass: a bare or `www.`-prefixed domain
/// name, whose internal periods are then masked.
pub open spec fn domain_pattern() -> Seq<char> {
    "\\b(?:www\\.)?([a-zA-Z0-9-]+\\.[a-zA-Z]{2,})(?:\\.[a-zA-Z]{2,})?\\b"@
}

/// The rewrite rules that run before domain masking: whitespace collapse, the
/// alphabet filter, numbered-list removal, the digit/period rules,
/// continuous-punctuation collapse and numbered-reference removal, in that
/// order.
pub open spec fn pre_rules(alph: Seq<char>) -> Seq<(Seq<char>, Seq<char>)> {
    Seq::<(Seq<char>, Seq<char>)>::empty()
        .push((("\\s+"@), " "@))
        .push((("\\n"@), " "@))
        .push((("\\t"@), " "@))
        .push((("\\r"@), " "@))
        .push((("[^0-9\\u{A9D0}-\\u{A9D9}\\u{17E0}-\\u{17E9}\\u{1040}-\\u{1049}\\u{0660}-\\u{0669}"@ + alph + "\\s\\"@ + "¿¡、，\u{0021}\u{002E}\u{003F}\u{0589}\u{061F}\u{06D4}\u{0700}\u{0701}\u{0702}\u{07F9}\u{0964}\u{0965}\u{104A}\u{104B}\u{1362}\u{1367}\u{1368}\u{166E}\u{1803}\u{1809}\u{1944}\u{1945}\u{1AA8}\u{1AA9}\u{1AAA}\u{1AAB}\u{1B5A}\u{1B5B}\u{1B5E}\u{1B5F}\u{1C3B}\u{1C3C}\u{1C7E}\u{1C7F}\u{203C}\u{203D}\u{2047}\u{2048}\u{2049}\u{2E2E}\u{3002}\u{A4FF}\u{A60E}\u{A60F}\u{A6F3}\u{A6F7}\u{A876}\u{A877}\u{A8CE}\u{A8CF}\u{A92F}\u{A9C8}\u{A9C9}\u{AA5D}\u{AA5E}\u{AA5F}\u{AAF0}\u{AAF1}\u{ABEB}\u{FE52}\u{FE56}\u{FE57}\u{FF01}\u{FF0E}\u{FF1F}\u{FF61}\u{11047}\u{11048}\u{110BE}\u{110BF}\u{110C0}\u{110C1}\u{11141}\u{11142}\u{11143}\u{111C5}\u{111C6}"@ + "\\\\「\\\\」\\\\)\\\\(\\\\[\\\\]\\\\-_]"@), ""@))
        .push((("\\d+\\.\\s*"@), " "@))
        .push((("\\.(?=\\d)"@), " "@))
        .push((("(?<=\\d)\\.(?=\\S)"@), " "@))
        .push((("(?<=\\r\\d)\\.(?=(\\s\\S)|\\))"@), " "@))
        .push((("(?<=^\\d)\\.(?=(\\s\\S)|\\))"@), " "@))
        .push((("(?<=^\\d\\d)\\.(?=(\\s\\S)|\\))"@), " "@))
        .push((("(["@ + "¿¡、，\u{0021}\u{002E}\u{003F}\u{0589}\u{061F}\u{06D4}\u{0700}\u{0701}\u{0702}\u{07F9}\u{0964}\u{0965}\u{104A}\u{104B}\u{1362}\u{1367}\u{1368}\u{166E}\u{1803}\u{1809}\u{1944}\u{1945}\u{1AA8}\u{1AA9}\u{1AAA}\u{1AAB}\u{1B5A}\u{1B5B}\u{1B5E}\u{1B5F}\u{1C3B}\u{1C3C}\u{1C7E}\u{1C7F}\u{203C}\u{203D}\u{2047}\u{2048}\u{2049}\u{2E2E}\u{3002}\u{A4FF}\u{A60E}\u{A60F}\u{A6F3}\u{A6F7}\u{A876}\u{A877}\u{A8CE}\u{A8CF}\u{A92F}\u{A9C8}\u{A9C9}\u{AA5D}\u{AA5E}\u{AA5F}\u{AAF0}\u{AAF1}\u{ABEB}\u{FE52}\u{FE56}\u{FE57}\u{FF01}\u{FF0E}\u{FF1F}\u{FF61}\u{11047}\u{11048}\u{110BE}\u{110BF}\u{110C0}\u{110C1}\u{11141}\u{11142}\u{11143}\u{111C5}\u{111C6}"@ + "]{2,})(\\s|\\z)"@), " "@))
        .push((("([^\\d\\s])(\\.|∯)((\\[(\\d{1,3},?\\s?-?\\s?)?\\b\\d{1,3}\\])+|((\\d{1,3}\\s?){0,3}\\d{1,3}))( )(["@ + alph + "])"@), " "@))
}

/// The rewrite rules that run after domain masking: email, coordinate and
/// file-extension removal, ellipsis and ideogram-run collapse, quoted and
/// bracketed span removal, residual cleanup, whitespace re-collapse, the
/// exclamation-word masks, and the two mid-sentence masks, in that order.
pub open spec fn post_rules(alph: Seq<char>, question: char, exclam: char) -> Seq<(Seq<char>, Seq<char>)> {
    Seq::<(Seq<char>, Seq<char>)>::empty()
        .push((("(\\w+)(\\u{0040})(\\w+)(\\u{002E})(\\w+)"@), " "@))
        .push((("([a-zA-Z]°)\\u{002E}(\\s*\\d+)"@), " "@))
        .push((("(\\s)\\u{002E}((jpe?g|png|gif|tiff?|pdf|ps|docx?|xlsx?|svg|bmp|tga|exif|odt|html?|txt|rtf|bat|sxw|xml|zip|exe|msi|blend|wmv|mp[34]|pptx?|flac|rb|cpp|cs|js)\\s)"@), " "@))
        .push((("\\n"@), " "@))
        .push((("(\\s\\.){3}\\s"@), " "@))
        .push((("\\.\\.\\."@), " "@))
        .push((("(\\s。){3}\\s"@), " "@))
        .push((("。。。"@), " "@))
        .push((("(\\s\\u{FF0C}){3}\\s"@), " "@))
        .push((("\\u{FF0C}\\u{FF0C}\\u{FF0C}"@), " "@))
        .push((("\"(?>[^\"\\\\]+|\\\\{2}|\\\\.)*\""@), " "@))
        .push((("«(?>[^»\\\\]+|\\\\{2}|\\\\.)*»"@), " "@))
        .push((("“(?>[^”\\\\]+|\\\\{2}|\\\\.)*”"@), " "@))
        .push((("\\[(?>[^\\]\\\\]+|\\\\{2}|\\\\.)*\\]"@), " "@))
        .push((("\\((?>[^\\(\\)\\\\]+|\\\\{2}|\\\\.)*\\)"@), " "@))
        .push((("「(?>[^」\\\\]+|\\\\{2}|\\\\.)*」"@), " "@))
        .push((("『(?>[^』\\\\]+|\\\\{2}|\\\\.)*』"@), " "@))
        .push((("‚(?>[^’\\\\]+|\\\\{2}|\\\\.)*’"@), " "@))
        .push((("„(?>[^”\\\\]+|\\\\{2}|\\\\.)*”"@), " "@))
        .push((("“(?>[^”\\\\]+|\\\\{2}|\\\\.)*”"@), " "@))
        .push((("‘(?>[^’\\\\]+|\\\\{2}|\\\\.)*’"@), " "@))
        .push((("(?<=\\s)'(?:[^']|'["@ + alph + "])*'\\S"@), " "@))
        .push((("\\-\\-(?>[^\\-\\-])*\\-\\-"@), " "@))
        .push((("\\.\\.\\.(?=\\s+["@ + alph + "])"@), " "@))
        .push((("\\.\\.\\.\\.(?=\\s+["@ + alph + "])"@), " "@))
        .push((("(?<=["@ + alph + "])(\\.\\s){3}\\.(\\z|$|\\n)"@), " "@))
        .push((("(?<=\\s)'(?:[^']|'["@ + alph + "])*'"@), " "@))
        .push((("(?<=\\s)‘(?:[^’]|’["@ + alph + "])*’"@), " "@))
        .push((("(?<=\\S)\\b((?=[mdclxvi])m*(c[md]|d?c*)(x[cl]|l?x*)(i[xv]|v?i*))\\b(?=\\s|$)"@), " "@))
        .push((("\\s{1,}"@), " "@))
        .push((("\\b!Xũ\\b"@), "&ᓴ&Xũ"@))
        .push((("\\b!Kung\\b"@), "&ᓴ&Kung"@))
        .push((("\\bǃʼOǃKung\\b"@), "&ᓴ&ʼO&ᓴ&Kung"@))
        .push((("\\b!Xuun\\b"@), "&ᓴ&Xuun"@))
        .push((("\\b!Kung-Ekoka\\b"@), "&ᓴ&Kung&ᓴ&Ekoka"@))
        .push((("\\bǃHu\\b"@), "&ᓴ&Hu"@))
        .push((("\\bǃKhung\\b"@), "&ᓴ&Khung"@))
        .push((("\\bǃKu\\b"@), "&ᓴ&Ku"@))
        .push((("\\bǃung\\b"@), "&ᓴ&ung"@))
        .push((("\\bǃXo\\b"@), "&ᓴ&Xo"@))
        .push((("\\bǃXû\\b"@), "&ᓴ&Xû"@))
        .push((("\\bǃXung\\b"@), "&ᓴ&Xung"@))
        .push((("\\bǃXũ\\b"@), "&ᓴ&Xũ"@))
        .push((("\\b!Xun\\b"@), "&ᓴ&Xun"@))
        .push((("\\bYahoo!\\b"@), "Yahoo&ᓴ&"@))
        .push((("\\bY!J\\b"@), "Y&ᓴ&J"@))
        .push((("\\bYum!\\b"@), "Yum&ᓴ&"@))
        .push((("("@.push(exclam) + "|!)(?=\\,\\s["@ + alph + "])"@), "&ᓴ&"@))
        .push((("\\"@.push(question) + "(?=(\\'|\\\"|["@ + alph + "]))"@), "&ᓷ&"@))
}

/// The text after the whole normalization cascade: the rules before domain
/// masking, then domain masking, then the rules after it.
pub open spec fn normalized(alph: Seq<char>, question: char, exclam: char, t: Seq<char>) -> Seq<
    char,
> {
    apply_rules(
        post_rules(alph, question, exclam),
        domain_masked(domain_pattern(), apply_rules(pre_rules(alph), t)),
    )
}

/// Builds the rules that run before domain masking, compiling each pattern
/// once.
pub(crate) fn build_pre(alph: &String) -> (r: Vec<Rule>)
    ensures
        rule_pairs(r@) == pre_rules(alph@),
{
    let mut rules: Vec<Rule> = Vec::new();
    proof {
        assert(rule_pairs(rules@) =~= Seq::<(Seq<char>, Seq<char>)>::empty());
    }
    push_rule(&mut rules, String::from_str("\\s+"), String::from_str(" "));
    push_rule(&mut rules, String::from_str("\\n"), String::from_str(" "));
    push_rule(&mut rules, String::from_str("\\t"), String::from_str(" "));
    push_rule(&mut rules, String::from_str("\\r"), String::from_str(" "));
    let mut p = String::from_str("[^0-9\\u{A9D0}-\\u{A9D9}\\u{17E0}-\\u{17E9}\\u{1040}-\\u{1049}\\u{0660}-\\u{0669}");
    p.append(alph.as_str());
    p.append("\\s\\");
    p.append("¿¡、，\u{0021}\u{002E}\u{003F}\u{0589}\u{061F}\u{06D4}\u{0700}\u{0701}\u{0702}\u{07F9}\u{0964}\u{0965}\u{104A}\u{104B}\u{1362}\u{1367}\u{1368}\u{166E}\u{1803}\u{1809}\u{1944}\u{1945}\u{1AA8}\u{1AA9}\u{1AAA}\u{1AAB}\u{1B5A}\u{1B5B}\u{1B5E}\u{1B5F}\u{1C3B}\u{1C3C}\u{1C7E}\u{1C7F}\u{203C}\u{203D}\u{2047}\u{2048}\u{2049}\u{2E2E}\u{3002}\u{A4FF}\u{A60E}\u{A60F}\u{A6F3}\u{A6F7}\u{A876}\u{A877}\u{A8CE}\u{A8CF}\u{A92F}\u{A9C8}\u{A9C9}\u{AA5D}\u{AA5E}\u{AA5F}\u{AAF0}\u{AAF1}\u{ABEB}\u{FE52}\u{FE56}\u{FE57}\u{FF01}\u{FF0E}\u{FF1F}\u{FF61}\u{11047}\u{11048}\u{110BE}\u{110BF}\u{110C0}\u{110C1}\u{11141}\u{11142}\u{11143}\u{111C5}\u{111C6}");
    p.append("\\\\「\\\\」\\\\)\\\\(\\\\[\\\\]\\\\-_]");
    push_rule(&mut rules, p, String::from_str(""));
    push_rule(&mut rules, String::from_str("\\d+\\.\\s*"), String::from_str(" "));
    push_rule(&mut rules, String::from_str("\\.(?=\\d)"), String::from_str(" "));
    push_rule(&mut rules, String::from_str("(?<=\\d)\\.(?=\\S)"), String::from_str(" "));
    push_rule(&mut rules, String::from_str("(?<=\\r\\d)\\.(?=(\\s\\S)|\\))"), String::from_str(" "));
    push_rule(&mut rules, String::from_str("(?<=^\\d)\\.(?=(\\s\\S)|\\))"), String::from_str(" "));
    push_rule(&mut rules, String::from_str("(?<=^\\d\\d)\\.(?=(\\s\\S)|\\))"), String::from_str(" "));
    let mut p = String::from_str("([");
    p.append("¿¡、，\u{0021}\u{002E}\u{003F}\u{0589}\u{061F}\u{06D4}\u{0700}\u{0701}\u{0702}\u{07F9}\u{0964}\u{0965}\u{104A}\u{104B}\u{1362}\u{1367}\u{1368}\u{166E}\u{1803}\u{1809}\u{1944}\u{1945}\u{1AA8}\u{1AA9}\u{1AAA}\u{1AAB}\u{1B5A}\u{1B5B}\u{1B5E}\u{1B5F}\u{1C3B}\u{1C3C}\u{1C7E}\u{1C7F}\u{203C}\u{203D}\u{2047}\u{2048}\u{2049}\u{2E2E}\u{3002}\u{A4FF}\u{A60E}\u{A60F}\u{A6F3}\u{A6F7}\u{A876}\u{A877}\u{A8CE}\u{A8CF}\u{A92F}\u{A9C8}\u{A9C9}\u{AA5D}\u{AA5E}\u{AA5F}\u{AAF0}\u{AAF1}\u{ABEB}\u{FE52}\u{FE56}\u{FE57}\u{FF01}\u{FF0E}\u{FF1F}\u{FF61}\u{11047}\u{11048}\u{110BE}\u{110BF}\u{110C0}\u{110C1}\u{11141}\u{11142}\u{11143}\u{111C5}\u{111C6}");
    p.append("]{2,})(\\s|\\z)");
    push_rule(&mut rules, p, String::from_str(" "));
    let mut p = String::from_str("([^\\d\\s])(\\.|∯)((\\[(\\d{1,3},?\\s?-?\\s?)?\\b\\d{1,3}\\])+|((\\d{1,3}\\s?){0,3}\\d{1,3}))( )([");
    p.append(alph.as_str());
    p.append("])");
    push_rule(&mut rules, p, String::from_str(" "));
    rules
}

/// Builds the domain-masking rule, compiling its pattern once.
pub(crate) fn build_domain() -> (r: MaskRule)
    ensures
        r.pat() == domain_pattern(),
{
    MaskRule::new(
        String::from_str("\\b(?:www\\.)?([a-zA-Z0-9-]+\\.[a-zA-Z]{2,})(?:\\.[a-zA-Z]{2,})?\\b"),
    )
}

/// Builds the rules that run after domain masking, compiling each pattern
/// once.
pub(crate) fn build_post(alph: &String, question: char, exclam: char) -> (r: Vec<Rule>)
    ensures
        rule_pairs(r@) == post_rules(alph@, question, exclam),
{
    let mut rules: Vec<Rule> = Vec::new();
    proof {
        assert(rule_pairs(rules@) =~= Seq::<(Seq<char>, Seq<char>)>::empty());
    }
    push_rule(&mut rules, String::from_str("(\\w+)(\\u{0040})(\\w+)(\\u{002E})(\\w+)"), String::from_str(" "));
    push_rule(&mut rules, String::from_str("([a-zA-Z]°)\\u{002E}(\\s*\\d+)"), String::from_str(" "));
    push_rule(&mut rules, String::from_str("(\\s)\\u{002E}((jpe?g|png|gif|tiff?|pdf|ps|docx?|xlsx?|svg|bmp|tga|exif|odt|html?|txt|rtf|bat|sxw|xml|zip|exe|msi|blend|wmv|mp[34]|pptx?|flac|rb|cpp|cs|js)\\s)"), String::from_str(" "));
    push_rule(&mut rules, String::from_str("\\n"), String::from_str(" "));
    push_rule(&mut rules, String::from_str("(\\s\\.){3}\\s"), String::from_str(" "));
    push_rule(&mut rules, String::from_str("\\.\\.\\."), String::from_str(" "));
    push_rule(&mut rules, String::from_str("(\\s。){3}\\s"), String::from_str(" "));
    push_rule(&mut rules, String::from_str("。。。"), String::from_str(" "));
    push_rule(&mut rules, String::from_str("(\\s\\u{FF0C}){3}\\s"), String::from_str(" "));
    push_rule(&mut rules, String::from_str("\\u{FF0C}\\u{FF0C}\\u{FF0C}"), String::from_str(" "));
    push_rule(&mut rules, String::from_str("\"(?>[^\"\\\\]+|\\\\{2}|\\\\.)*\""), String::from_str(" "));
    push_rule(&mut rules, String::from_str("«(?>[^»\\\\]+|\\\\{2}|\\\\.)*»"), String::from_str(" "));
    push_rule(&mut rules, String::from_str("“(?>[^”\\\\]+|\\\\{2}|\\\\.)*”"), String::from_str(" "));
    push_rule(&mut rules, String::from_str("\\[(?>[^\\]\\\\]+|\\\\{2}|\\\\.)*\\]"), String::from_str(" "));
    push_rule(&mut rules, String::from_str("\\((?>[^\\(\\)\\\\]+|\\\\{2}|\\\\.)*\\)"), String::from_str(" "));
    push_rule(&mut rules, String::from_str("「(?>[^」\\\\]+|\\\\{2}|\\\\.)*」"), String::from_str(" "));
    push_rule(&mut rules, String::from_str("『(?>[^』\\\\]+|\\\\{2}|\\\\.)*』"), String::from_str(" "));
    push_rule(&mut rules, String::from_str("‚(?>[^’\\\\]+|\\\\{2}|\\\\.)*’"), String::from_str(" "));
    push_rule(&mut rules, String::from_str("„(?>[^”\\\\]+|\\\\{2}|\\\\.)*”"), String::from_str(" "));
    push_rule(&mut rules, String::from_str("“(?>[^”\\\\]+|\\\\{2}|\\\\.)*”"), String::from_str(" "));
    push_rule(&mut rules, String::from_str("‘(?>[^’\\\\]+|\\\\{2}|\\\\.)*’"), String::from_str(" "));
    let mut p = String::from_str("(?<=\\s)'(?:[^']|'[");
    p.append(alph.as_str());
    p.append("])*'\\S");
    push_rule(&mut rules, p, String::from_str(" "));
    push_rule(&mut rules, String::from_str("\\-\\-(?>[^\\-\\-])*\\-\\-"), String::from_str(" "));
    let mut p = String::from_str("\\.\\.\\.(?=\\s+[");
    p.append(alph.as_str());
    p.append("])");
    push_rule(&mut rules, p, String::from_str(" "));
    let mut p = String::from_str("\\.\\.\\.\\.(?=\\s+[");
    p.append(alph.as_str());
    p.append("])");
    push_rule(&mut rules, p, String::from_str(" "));
    let mut p = String::from_str("(?<=[");
    p.append(alph.as_str());
    p.append("])(\\.\\s){3}\\.(\\z|$|\\n)");
    push_rule(&mut rules, p, String::from_str(" "));
    let mut p = String::from_str("(?<=\\s)'(?:[^']|'[");
    p.append(alph.as_str());
    p.append("])*'");
    push_rule(&mut rules, p, String::from_str(" "));
    let mut p = String::from_str("(?<=\\s)‘(?:[^’]|’[");
    p.append(alph.as_str());
    p.append("])*’");
    push_rule(&mut rules, p, String::from_str(" "));
    push_rule(&mut rules, String::from_str("(?<=\\S)\\b((?=[mdclxvi])m*(c[md]|d?c*)(x[cl]|l?x*)(i[xv]|v?i*))\\b(?=\\s|$)"), String::from_str(" "));
    push_rule(&mut rules, String::from_str("\\s{1,}"), String::from_str(" "));
    push_rule(&mut rules, String::from_str("\\b!Xũ\\b"), String::from_str("&ᓴ&Xũ"));
    push_rule(&mut rules, String::from_str("\\b!Kung\\b"), String::from_str("&ᓴ&Kung"));
    push_rule(&mut rules, String::from_str("\\bǃʼOǃKung\\b"), String::from_str("&ᓴ&ʼO&ᓴ&Kung"));
    push_rule(&mut rules, String::from_str("\\b!Xuun\\b"), String::from_str("&ᓴ&Xuun"));
    push_rule(&mut rules, String::from_str("\\b!Kung-Ekoka\\b"), String::from_str("&ᓴ&Kung&ᓴ&Ekoka"));
    push_rule(&mut rules, String::from_str("\\bǃHu\\b"), String::from_str("&ᓴ&Hu"));
    push_rule(&mut rules, String::from_str("\\bǃKhung\\b"), String::from_str("&ᓴ&Khung"));
    push_rule(&mut rules, String::from_str("\\bǃKu\\b"), String::from_str("&ᓴ&Ku"));
    push_rule(&mut rules, String::from_str("\\bǃung\\b"), String::from_str("&ᓴ&ung"));
    push_rule(&mut rules, String::from_str("\\bǃXo\\b"), String::from_str("&ᓴ&Xo"));
    push_rule(&mut rules, String::from_str("\\bǃXû\\b"), String::from_str("&ᓴ&Xû"));
    push_rule(&mut rules, String::from_str("\\bǃXung\\b"), String::from_str("&ᓴ&Xung"));
    push_rule(&mut rules, String::from_str("\\bǃXũ\\b"), String::from_str("&ᓴ&Xũ"));
    push_rule(&mut rules, String::from_str("\\b!Xun\\b"), String::from_str("&ᓴ&Xun"));
    push_rule(&mut rules, String::from_str("\\bYahoo!\\b"), String::from_str("Yahoo&ᓴ&"));
    push_rule(&mut rules, String::from_str("\\bY!J\\b"), String::from_str("Y&ᓴ&J"));
    push_rule(&mut rules, String::from_str("\\bYum!\\b"), String::from_str("Yum&ᓴ&"));
    let mut p = String::from_str("(");
    p.push(exclam);
    p.append("|!)(?=\\,\\s[");
    p.append(alph.as_str());
    p.append("])");
    push_rule(&mut rules, p, String::from_str("&ᓴ&"));
    let mut p = String::from_str("\\");
    p.push(question);
    p.append("(?=(\\'|\\\"|[");
    p.append(alph.as_str());
    p.append("]))");
    push_rule(&mut rules, p, String::from_str("&ᓷ&"));
    rules
}

} // verus!
