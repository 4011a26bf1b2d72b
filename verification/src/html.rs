use vstd::prelude::*;

verus! {

/// The names in a list of string slices.
pub open spec fn names(v: Seq<&str>) -> Seq<Seq<char>> {
    v.map_values(|s: &str| s@)
}

/// A table of (tag, names) rows, by value.
pub open spec fn name_table(v: Seq<(&str, Vec<&str>)>) -> Seq<(Seq<char>, Seq<Seq<char>>)> {
    v.map_values(|row: (&str, Vec<&str>)| (row.0@, names(row.1@)))
}

/// What a sanitizer policy allows on top of the sanitizer's defaults.
pub struct PolicyModel {
    pub generic_attributes: Seq<Seq<char>>,
    pub tags: Seq<Seq<char>>,
    pub tag_attributes: Seq<(Seq<char>, Seq<Seq<char>>)>,
    pub allowed_classes: Seq<(Seq<char>, Seq<Seq<char>>)>,
}

/// Additions to the HTML sanitizer's default allow-lists: attributes allowed on
/// every tag, extra tags, attributes allowed per tag, and classes allowed per tag.
pub struct SanitizerPolicy {
    pub generic_attributes: Vec<&'static str>,
    pub tags: Vec<&'static str>,
    pub tag_attributes: Vec<(&'static str, Vec<&'static str>)>,
    pub allowed_classes: Vec<(&'static str, Vec<&'static str>)>,
}

impl View for SanitizerPolicy {
    type V = PolicyModel;

    open spec fn view(&self) -> PolicyModel {
        PolicyModel {
            generic_attributes: names(self.generic_attributes@),
            tags: names(self.tags@),
            tag_attributes: name_table(self.tag_attributes@),
            allowed_classes: name_table(self.allowed_classes@),
        }
    }
}

/// Whether a table has a row for `tag` whose names include `name`.
pub open spec fn table_has(table: Seq<(Seq<char>, Seq<Seq<char>>)>, tag: Seq<char>, name: Seq<char>) -> bool {
    exists|i: int| 0 <= i < table.len() && (#[trigger] table[i]).0 == tag && table[i].1.contains(name)
}

/// Whether a table has a row for `tag`.
pub open spec fn table_has_row(table: Seq<(Seq<char>, Seq<Seq<char>>)>, tag: Seq<char>) -> bool {
    exists|i: int| 0 <= i < table.len() && (#[trigger] table[i]).0 == tag
}

/// The additions that the sanitizer, starting from its defaults (links get a fixed
/// `rel`, `script` and `style` have their content removed, no classes are allowed),
/// accepts without a contradiction in its settings: no one may set `rel`; `class`
/// is no generic attribute once some classes are allowed, nor an attribute of a
/// tag whose classes are listed; `script` and `style` are neither allowed tags nor
/// tags with allowed attributes.
pub open spec fn sanitizer_accepts(p: PolicyModel) -> bool {
    &&& !p.generic_attributes.contains("rel"@)
    &&& !table_has(p.tag_attributes, "a"@, "rel"@)
    &&& p.allowed_classes.len() > 0 ==> !p.generic_attributes.contains("class"@)
    &&& forall|j: int|
        0 <= j < p.allowed_classes.len() ==> !table_has(
            p.tag_attributes,
            (#[trigger] p.allowed_classes[j]).0,
            "class"@,
        )
    &&& !p.tags.contains("script"@)
    &&& !p.tags.contains("style"@)
    &&& !table_has_row(p.tag_attributes, "script"@)
    &&& !table_has_row(p.tag_attributes, "style"@)
}

/// The HTML that the sanitizer, set up from its defaults with these additions,
/// makes of `src`.
pub uninterp spec fn sanitized_html(
    generic_attributes: Seq<Seq<char>>,
    tags: Seq<Seq<char>>,
    tag_attributes: Seq<(Seq<char>, Seq<Seq<char>>)>,
    allowed_classes: Seq<(Seq<char>, Seq<Seq<char>>)>,
    src: Seq<char>,
) -> Seq<char>;

/// `sanitized_html` applied to a policy's additions.
pub open spec fn sanitized_by(p: PolicyModel, src: Seq<char>) -> Seq<char> {
    sanitized_html(p.generic_attributes, p.tags, p.tag_attributes, p.allowed_classes, src)
}

/// Runs `ammonia::Builder::clean` with the default builder extended by the policy
/// (`add_generic_attributes`, `add_tags`, `add_tag_attributes`,
/// `add_allowed_classes`) and renders the document with `to_string`. Claimed: the
/// output is a function of the additions and of `src` (named `sanitized_html`),
/// and the builder does not panic when the additions meet `sanitizer_accepts`,
/// which rules out each contradiction that ammonia's documentation lists as a
/// cause of a panic in `clean`.
#[verifier::external_body]
fn ammonia_clean(policy: &SanitizerPolicy, src: &str) -> (res: String)
    requires
        sanitizer_accepts(policy@),
    ensures
        res@ == sanitized_html(
            policy@.generic_attributes,
            policy@.tags,
            policy@.tag_attributes,
            policy@.allowed_classes,
            src@,
        ),
{
    let mut builder = ammonia::Builder::default();
    builder.add_generic_attributes(policy.generic_attributes.iter());
    builder.add_tags(policy.tags.iter());
    for (tag, attributes) in policy.tag_attributes.iter() {
        builder.add_tag_attributes(tag, attributes.iter());
    }
    for (tag, classes) in policy.allowed_classes.iter() {
        builder.add_allowed_classes(tag, classes.iter());
    }
    builder.clean(src).to_string()
}

/// The additions that article bodies are sanitized with: inline `style` on every
/// tag, bordered tables, embedded videos with their sources, and embedded frames,
/// with the article classes on images, videos and frames.
pub open spec fn article_policy_model() -> PolicyModel {
    PolicyModel {
        generic_attributes: seq!["style"@],
        tags: seq!["video"@, "source"@, "iframe"@],
        tag_attributes: seq![
            ("table"@, seq!["border"@]),
            ("video"@, seq!["controls"@, "autoplay"@, "loop"@]),
            ("source"@, seq!["src"@, "type"@]),
            ("iframe"@, seq![
                "src"@,
                "allowfullscreen"@,
                "width"@,
                "height"@,
                "frameBorder"@,
                "allow"@,
                "loading"@,
            ]),
        ],
        allowed_classes: seq![
            ("img"@, seq!["article-img"@]),
            ("video"@, seq!["article-img"@]),
            ("iframe"@, seq!["article-iframe"@]),
        ],
    }
}

/// The sanitizer additions for article bodies.
pub fn article_policy() -> (res: SanitizerPolicy)
    ensures
        res@ == article_policy_model(),
{
    let res = SanitizerPolicy {
        generic_attributes: vec!["style"],
        tags: vec!["video", "source", "iframe"],
        tag_attributes: vec![
            ("table", vec!["border"]),
            ("video", vec!["controls", "autoplay", "loop"]),
            ("source", vec!["src", "type"]),
            ("iframe", vec![
                "src",
                "allowfullscreen",
                "width",
                "height",
                "frameBorder",
                "allow",
                "loading",
            ]),
        ],
        allowed_classes: vec![
            ("img", vec!["article-img"]),
            ("video", vec!["article-img"]),
            ("iframe", vec!["article-iframe"]),
        ],
    };
    assert(res@.generic_attributes =~= article_policy_model().generic_attributes);
    assert(res@.tags =~= article_policy_model().tags);
    assert(names(res.tag_attributes@[0].1@) =~= seq!["border"@]);
    assert(names(res.tag_attributes@[1].1@) =~= seq!["controls"@, "autoplay"@, "loop"@]);
    assert(names(res.tag_attributes@[2].1@) =~= seq!["src"@, "type"@]);
    assert(names(res.tag_attributes@[3].1@) =~= seq![
        "src"@,
        "allowfullscreen"@,
        "width"@,
        "height"@,
        "frameBorder"@,
        "allow"@,
        "loading"@,
    ]);
    assert(res@.tag_attributes =~= article_policy_model().tag_attributes);
    assert(names(res.allowed_classes@[0].1@) =~= seq!["article-img"@]);
    assert(names(res.allowed_classes@[1].1@) =~= seq!["article-img"@]);
    assert(names(res.allowed_classes@[2].1@) =~= seq!["article-iframe"@]);
    assert(res@.allowed_classes =~= article_policy_model().allowed_classes);
    res
}

/// Law: the article additions never put the sanitizer's settings in contradiction,
/// so sanitizing an article cannot fail on them.
pub proof fn law_article_policy_accepted()
    ensures
        sanitizer_accepts(article_policy_model()),
{
    reveal_strlit("rel");
    reveal_strlit("a");
    reveal_strlit("class");
    reveal_strlit("script");
    reveal_strlit("style");
    reveal_strlit("video");
    reveal_strlit("source");
    reveal_strlit("iframe");
    reveal_strlit("table");
    reveal_strlit("img");
    reveal_strlit("border");
    reveal_strlit("controls");
    reveal_strlit("autoplay");
    reveal_strlit("loop");
    reveal_strlit("src");
    reveal_strlit("type");
    reveal_strlit("allowfullscreen");
    reveal_strlit("width");
    reveal_strlit("height");
    reveal_strlit("frameBorder");
    reveal_strlit("allow");
    reveal_strlit("loading");
    let p = article_policy_model();
    assert("style"@.len() == 5 && "style"@[0] == 's');
    assert("rel"@.len() == 3);
    assert("class"@.len() == 5 && "class"@[0] == 'c');
    assert("script"@.len() == 6 && "script"@[1] == 'c');
    assert("source"@.len() == 6 && "source"@[1] == 'o');
    assert("iframe"@.len() == 6 && "iframe"@[0] == 'i');
    assert("video"@.len() == 5 && "video"@[0] == 'v');
    assert("table"@.len() == 5 && "table"@[0] == 't');
    assert("img"@.len() == 3 && "img"@[0] == 'i');
    assert("a"@.len() == 1);
    assert(!p.generic_attributes.contains("rel"@)) by {
        assert(p.generic_attributes[0] != "rel"@);
    }
    assert(!p.generic_attributes.contains("class"@)) by {
        assert(p.generic_attributes[0] != "class"@);
    }
    assert(!p.tags.contains("script"@)) by {
        assert(p.tags[0] != "script"@);
        assert(p.tags[1] != "script"@);
        assert(p.tags[2] != "script"@);
    }
    assert(!p.tags.contains("style"@)) by {
        assert(p.tags[0] != "style"@);
        assert(p.tags[1] != "style"@);
        assert(p.tags[2] != "style"@);
    }
    let t = p.tag_attributes;
    assert(t[0].0 != "a"@ && t[1].0 != "a"@ && t[2].0 != "a"@ && t[3].0 != "a"@);
    assert(t[0].0 != "script"@ && t[1].0 != "script"@ && t[2].0 != "script"@ && t[3].0 != "script"@);
    assert(t[0].0 != "style"@ && t[1].0 != "style"@ && t[2].0 != "style"@ && t[3].0 != "style"@);
    assert forall|j: int| 0 <= j < p.allowed_classes.len() implies !table_has(
        t,
        (#[trigger] p.allowed_classes[j]).0,
        "class"@,
    ) by {
        let tag = p.allowed_classes[j].0;
        assert forall|i: int| 0 <= i < t.len() && (#[trigger] t[i]).0 == tag implies !t[i].1.contains(
            "class"@,
        ) by {
            if j == 0 {
                assert(t[i].0 != "img"@);
            } else if j == 1 {
                assert(i == 1);
            } else {
                assert(i == 3);
            }
        }
    }
}

/// A table whose only row for `tag` is row `r` has `name` for `tag` exactly when
/// that row lists it.
proof fn lemma_only_row(
    table: Seq<(Seq<char>, Seq<Seq<char>>)>,
    r: int,
    tag: Seq<char>,
    name: Seq<char>,
)
    requires
        0 <= r < table.len(),
        table[r].0 == tag,
        forall|i: int| 0 <= i < table.len() && i != r ==> (#[trigger] table[i]).0 != tag,
    ensures
        table_has(table, tag, name) <==> table[r].1.contains(name),
{
    if table_has(table, tag, name) {
        let i = choose|i: int|
            0 <= i < table.len() && (#[trigger] table[i]).0 == tag && table[i].1.contains(name);
        assert(i == r);
    }
}

/// Law: the article additions are the article allow-lists, no more and no less:
/// `style` on every tag; the tags `video`, `source` and `iframe`; `border` on
/// tables; `controls`, `autoplay` and `loop` on videos; `src` and `type` on
/// sources; `src`, `allowfullscreen`, `width`, `height`, `frameBorder`, `allow`
/// and `loading` on frames; the class `article-img` on images and videos and
/// `article-iframe` on frames; and no attributes or classes for other tags.
pub proof fn law_article_allow_lists()
    ensures
        forall|name: Seq<char>|
            article_policy_model().generic_attributes.contains(name) <==> name == "style"@,
        forall|tag: Seq<char>|
            article_policy_model().tags.contains(tag) <==> (tag == "video"@ || tag == "source"@
                || tag == "iframe"@),
        forall|name: Seq<char>|
            table_has(article_policy_model().tag_attributes, "table"@, name) <==> name
                == "border"@,
        forall|name: Seq<char>|
            table_has(article_policy_model().tag_attributes, "video"@, name) <==> (name
                == "controls"@ || name == "autoplay"@ || name == "loop"@),
        forall|name: Seq<char>|
            table_has(article_policy_model().tag_attributes, "source"@, name) <==> (name
                == "src"@ || name == "type"@),
        forall|name: Seq<char>|
            table_has(article_policy_model().tag_attributes, "iframe"@, name) <==> (name
                == "src"@ || name == "allowfullscreen"@ || name == "width"@ || name == "height"@
                || name == "frameBorder"@ || name == "allow"@ || name == "loading"@),
        forall|tag: Seq<char>, name: Seq<char>|
            table_has(article_policy_model().tag_attributes, tag, name) ==> (tag == "table"@
                || tag == "video"@ || tag == "source"@ || tag == "iframe"@),
        forall|name: Seq<char>|
            table_has(article_policy_model().allowed_classes, "img"@, name) <==> name
                == "article-img"@,
        forall|name: Seq<char>|
            table_has(article_policy_model().allowed_classes, "video"@, name) <==> name
                == "article-img"@,
        forall|name: Seq<char>|
            table_has(article_policy_model().allowed_classes, "iframe"@, name) <==> name
                == "article-iframe"@,
        forall|tag: Seq<char>, name: Seq<char>|
            table_has(article_policy_model().allowed_classes, tag, name) ==> (tag == "img"@
                || tag == "video"@ || tag == "iframe"@),
{
    reveal_strlit("iframe");
    reveal_strlit("table");
    reveal_strlit("video");
    reveal_strlit("source");
    reveal_strlit("img");
    let p = article_policy_model();
    let t = p.tag_attributes;
    let c = p.allowed_classes;
    assert("iframe"@[0] == 'i' && "table"@[0] == 't' && "video"@[0] == 'v');
    assert("source"@[0] == 's' && "img"@.len() == 3 && "iframe"@.len() == 6);
    let g = p.generic_attributes;
    assert forall|name: Seq<char>| g.contains(name) <==> name == "style"@ by {
        assert(g[0] == "style"@);
    }
    let tags = p.tags;
    assert forall|tag: Seq<char>| tags.contains(tag) <==> (tag == "video"@ || tag == "source"@
        || tag == "iframe"@) by {
        assert(tags[0] == "video"@ && tags[1] == "source"@ && tags[2] == "iframe"@);
    }
    assert forall|i: int| 0 <= i < t.len() && i != 0 implies (#[trigger] t[i]).0 != "table"@ by {}
    assert forall|i: int| 0 <= i < t.len() && i != 1 implies (#[trigger] t[i]).0 != "video"@ by {}
    assert forall|i: int| 0 <= i < t.len() && i != 2 implies (#[trigger] t[i]).0 != "source"@ by {}
    assert forall|i: int| 0 <= i < t.len() && i != 3 implies (#[trigger] t[i]).0 != "iframe"@ by {}
    assert forall|i: int| 0 <= i < c.len() && i != 0 implies (#[trigger] c[i]).0 != "img"@ by {}
    assert forall|i: int| 0 <= i < c.len() && i != 1 implies (#[trigger] c[i]).0 != "video"@ by {}
    assert forall|i: int| 0 <= i < c.len() && i != 2 implies (#[trigger] c[i]).0 != "iframe"@ by {}
    assert forall|name: Seq<char>| table_has(t, "table"@, name) <==> name == "border"@ by {
        lemma_only_row(t, 0, "table"@, name);
        assert(t[0].1[0] == "border"@);
    }
    assert forall|name: Seq<char>| table_has(t, "video"@, name) <==> (name == "controls"@ || name
        == "autoplay"@ || name == "loop"@) by {
        lemma_only_row(t, 1, "video"@, name);
        assert(t[1].1[0] == "controls"@ && t[1].1[1] == "autoplay"@ && t[1].1[2] == "loop"@);
    }
    assert forall|name: Seq<char>| table_has(t, "source"@, name) <==> (name == "src"@ || name
        == "type"@) by {
        lemma_only_row(t, 2, "source"@, name);
        assert(t[2].1[0] == "src"@ && t[2].1[1] == "type"@);
    }
    let frame = t[3].1;
    assert forall|name: Seq<char>| table_has(t, "iframe"@, name) <==> (name == "src"@ || name
        == "allowfullscreen"@ || name == "width"@ || name == "height"@ || name == "frameBorder"@
        || name == "allow"@ || name == "loading"@) by {
        lemma_only_row(t, 3, "iframe"@, name);
        assert(frame[0] == "src"@ && frame[1] == "allowfullscreen"@ && frame[2] == "width"@);
        assert(frame[3] == "height"@ && frame[4] == "frameBorder"@ && frame[5] == "allow"@);
        assert(frame[6] == "loading"@);
        if frame.contains(name) {
            let k = choose|k: int| 0 <= k < frame.len() && frame[k] == name;
            assert(0 <= k < 7);
        }
    }
    assert forall|tag: Seq<char>, name: Seq<char>| table_has(t, tag, name) implies (tag
        == "table"@ || tag == "video"@ || tag == "source"@ || tag == "iframe"@) by {
        let i = choose|i: int|
            0 <= i < t.len() && (#[trigger] t[i]).0 == tag && t[i].1.contains(name);
        assert(0 <= i < 4);
    }
    assert forall|name: Seq<char>| table_has(c, "img"@, name) <==> name == "article-img"@ by {
        lemma_only_row(c, 0, "img"@, name);
        assert(c[0].1[0] == "article-img"@);
    }
    assert forall|name: Seq<char>| table_has(c, "video"@, name) <==> name == "article-img"@ by {
        lemma_only_row(c, 1, "video"@, name);
        assert(c[1].1[0] == "article-img"@);
    }
    assert forall|name: Seq<char>| table_has(c, "iframe"@, name) <==> name == "article-iframe"@ by {
        lemma_only_row(c, 2, "iframe"@, name);
        assert(c[2].1[0] == "article-iframe"@);
    }
    assert forall|tag: Seq<char>, name: Seq<char>| table_has(c, tag, name) implies (tag == "img"@
        || tag == "video"@ || tag == "iframe"@) by {
        let i = choose|i: int|
            0 <= i < c.len() && (#[trigger] c[i]).0 == tag && c[i].1.contains(name);
        assert(0 <= i < 3);
    }
}

/// Sanitizes an article body: untrusted HTML in, HTML with only the default
/// allow-lists and the article additions out.
pub fn clean(src: &str) -> (res: String)
    ensures
        res@ == sanitized_by(article_policy_model(), src@),
{
    let policy = article_policy();
    proof {
        law_article_policy_accepted();
    }
    ammonia_clean(&policy, src)
}

/// The plain text that `html2text` renders of `src` at `width` columns, or `None`
/// where its renderer gives an error.
pub uninterp spec fn rendered_plain_text(src: Seq<char>, width: usize) -> Option<Seq<char>>;

/// Runs `html2text::config::plain().string_from_read` on the UTF-8 bytes of `src`
/// (what `html2text::from_read` runs before it panics on an error). Claimed: the
/// outcome is a function of `src` and `width`, named `rendered_plain_text`.
#[verifier::external_body]
fn html2text_plain(src: &str, width: usize) -> (res: Option<String>)
    ensures
        match res {
            Some(text) => rendered_plain_text(src@, width) == Some(text@),
            None => rendered_plain_text(src@, width) is None,
        },
{
    html2text::config::plain().string_from_read(src.as_bytes(), width).ok()
}

/// The plain text of an HTML article body, without line wrapping (`usize::MAX`
/// columns). Only for bodies that the renderer can render.
pub fn to_plain(src: &str) -> (res: String)
    requires
        rendered_plain_text(src@, usize::MAX) is Some,
    ensures
        Some(res@) == rendered_plain_text(src@, usize::MAX),
{
    match html2text_plain(src, usize::MAX) {
        Some(text) => text,
        None => {
            assert(false);
            String::new()
        },
    }
}

/// The plain text of an HTML article body, without line wrapping, or `None` where
/// the renderer fails on it. The body is rendered once to learn whether it can
/// be, and once more by `to_plain`.
pub fn try_to_plain(src: &str) -> (res: Option<String>)
    ensures
        match res {
            Some(text) => rendered_plain_text(src@, usize::MAX) == Some(text@),
            None => rendered_plain_text(src@, usize::MAX) is None,
        },
{
    match html2text_plain(src, usize::MAX) {
        Some(_) => Some(to_plain(src)),
        None => None,
    }
}

} // verus!
