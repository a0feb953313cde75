//! The syntax definition: which patterns make up which category of text, and
//! in which style each category is drawn.

use crate::style::{Color, Style};
use vstd::hash_map::StringHashMap;
use vstd::prelude::*;

verus! {

/// A pattern, and the name of the category of the text it matches.
#[derive(Clone, Debug, PartialEq, Eq)]
pub struct Rule {
    pub token: String,
    pub regex: String,
}

impl View for Rule {
    type V = (Seq<char>, Seq<char>);

    open spec fn view(&self) -> (Seq<char>, Seq<char>) {
        (self.token@, self.regex@)
    }
}

/// The views of a vector of rules: category and pattern of each.
pub open spec fn rules_of(rules: Seq<Rule>) -> Seq<(Seq<char>, Seq<char>)> {
    rules.map_values(|rule: Rule| rule@)
}

/// The rules of a categorizer, in the order in which they were added, and
/// the style of each category that has one.
pub struct SyntaxSet {
    pub rules: Vec<Rule>,
    pub styles: StringHashMap<Style>,
}

/// The style in which `category` is drawn: the one `styles` holds for it, or
/// the plain style where it holds none.
pub open spec fn style_for(styles: Map<Seq<char>, Style>, category: Seq<char>) -> Style {
    if styles.contains_key(category) {
        styles[category]
    } else {
        Style::plain()
    }
}

impl SyntaxSet {
    /// The rules, as category and pattern.
    pub open spec fn rules(&self) -> Seq<(Seq<char>, Seq<char>)> {
        rules_of(self.rules@)
    }

    /// The styles, by category.
    pub open spec fn styles(&self) -> Map<Seq<char>, Style> {
        self.styles@
    }

    /// A syntax without rules and without styles.
    pub fn new() -> (set: SyntaxSet)
        ensures
            set.rules() == Seq::<(Seq<char>, Seq<char>)>::empty(),
            set.styles() == Map::<Seq<char>, Style>::empty(),
    {
        let set = SyntaxSet { rules: Vec::new(), styles: StringHashMap::new() };
        assert(set.rules() =~= Seq::empty());
        set
    }

    /// Adds the rule that text matching `regex` belongs to the category
    /// `token`.
    pub fn add(&mut self, token: &str, regex: &str)
        ensures
            final(self).rules() == old(self).rules().push((token@, regex@)),
            final(self).styles() == old(self).styles(),
    {
        self.rules.push(Rule { token: token.to_owned(), regex: regex.to_owned() });
        assert(final(self).rules() =~= old(self).rules().push((token@, regex@)));
    }

    /// Adds each pattern of `regex` as a rule for the category `token`, in
    /// the order given.
    pub fn join(&mut self, token: &str, regex: &[&str])
        ensures
            final(self).rules() == old(self).rules() + regex@.map_values(
                |pattern: &str| (token@, pattern@),
            ),
            final(self).styles() == old(self).styles(),
    {
        let mut i: usize = 0;
        while i < regex.len()
            invariant
                i <= regex.len(),
                self.rules() == old(self).rules() + regex@.take(i as int).map_values(
                    |pattern: &str| (token@, pattern@),
                ),
                self.styles() == old(self).styles(),
            decreases regex.len() - i,
        {
            self.add(token, regex[i]);
            i = i + 1;
            assert(regex@.take(i as int).map_values(|pattern: &str| (token@, pattern@))
                =~= regex@.take(i - 1).map_values(|pattern: &str| (token@, pattern@)).push(
                (token@, regex@[i - 1]@),
            ));
        }
        assert(regex@.take(regex.len() as int) =~= regex@);
    }

    /// Sets the style in which the category `token` is drawn.
    pub fn insert(&mut self, token: String, style: Style)
        ensures
            final(self).styles() == old(self).styles().insert(token@, style),
            final(self).rules() == old(self).rules(),
    {
        self.styles.insert(token, style);
    }

    /// The style in which `category` is drawn.
    pub fn style_of(&self, category: &str) -> (style: Style)
        ensures
            style == style_for(self.styles(), category@),
    {
        match self.styles.get(category) {
            Some(style) => *style,
            None => Style::new(),
        }
    }
}

/// The rules of the syntax for Rust sources.
pub open spec fn rust_rules() -> Seq<(Seq<char>, Seq<char>)> {
    seq![
        ("keyword"@, "fn"@),
        ("keyword"@, "return"@),
        ("keyword"@, "pub"@),
        ("type"@, "bool"@),
        ("boolean"@, "true"@),
        ("boolean"@, "false"@),
        ("comment"@, "(?m)(//.*)$"@),
        ("comment"@, "(?ms)/\\*.*?\\*/"@),
        ("string"@, "\".*?\""@),
        ("identifier"@, "([a-z_][A-Za-z0-9_]*)\\s*\\("@),
        ("macro"@, "([a-z_][A-Za-z0-9_]*!)\\s*"@),
    ]
}

/// The styles of the syntax for Rust sources.
pub open spec fn rust_styles() -> Map<Seq<char>, Style> {
    Map::<Seq<char>, Style>::empty().insert(
        "keyword"@,
        Style::plain().with_foreground(Color::Green),
    ).insert("type"@, Style::plain().with_foreground(Color::Red)).insert(
        "comment"@,
        Style::plain().with_foreground(Color::Gray),
    ).insert("string"@, Style::plain().with_foreground(Color::Blue)).insert(
        "identifier"@,
        Style::plain().with_foreground(Color::Cyan),
    )
}

/// A syntax for Rust sources: keywords, the type `bool`, the two truth
/// values, comments, strings, and the names of called functions and macros.
pub fn rust_syntax() -> (set: SyntaxSet)
    ensures
        set.rules() == rust_rules(),
        set.styles() == rust_styles(),
{
    let mut set = SyntaxSet::new();

    let keywords = ["fn", "return", "pub"];
    set.join("keyword", &keywords);
    let types = ["bool"];
    set.join("type", &types);
    let booleans = ["true", "false"];
    set.join("boolean", &booleans);
    set.add("comment", "(?m)(//.*)$");
    set.add("comment", "(?ms)/\\*.*?\\*/");
    set.add("string", "\".*?\"");
    set.add("identifier", "([a-z_][A-Za-z0-9_]*)\\s*\\(");
    set.add("macro", "([a-z_][A-Za-z0-9_]*!)\\s*");
    assert(set.rules() =~= rust_rules());

    set.insert("keyword".to_owned(), Style::new().fg(Color::Green));
    set.insert("type".to_owned(), Style::new().fg(Color::Red));
    set.insert("comment".to_owned(), Style::new().fg(Color::Gray));
    set.insert("string".to_owned(), Style::new().fg(Color::Blue));
    set.insert("identifier".to_owned(), Style::new().fg(Color::Cyan));

    set
}

} // verus!
