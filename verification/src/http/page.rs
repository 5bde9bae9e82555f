//! The page that carries the application, and its stylesheet.

use vstd::prelude::*;
use sauron::prelude::jss::json::object::Object;
use sauron::prelude::jss::json::JsonValue;
use crate::page::{Page, PageView};

verus! {

/// One declaration of a style rule. The property is written as an identifier,
/// with `_` where CSS has `-`.
#[derive(Clone, Debug, PartialEq, Eq)]
pub struct Declaration {
    pub property: String,
    pub value: String,
}

/// A selector with its declarations.
#[derive(Clone, Debug, PartialEq, Eq)]
pub struct Block {
    pub selector: String,
    pub declarations: Vec<Declaration>,
}

/// A rule of a stylesheet: a selector with its declarations and, behind them,
/// the blocks nested in it (the steps of an animation).
#[derive(Clone, Debug, PartialEq, Eq)]
pub struct StyleRule {
    pub selector: String,
    pub declarations: Vec<Declaration>,
    pub blocks: Vec<Block>,
}

/// The view of a `Declaration`.
pub struct DeclarationView {
    pub property: Seq<char>,
    pub value: Seq<char>,
}

/// The view of a `Block`.
pub struct BlockView {
    pub selector: Seq<char>,
    pub declarations: Seq<DeclarationView>,
}

/// The view of a `StyleRule`.
pub struct RuleView {
    pub selector: Seq<char>,
    pub declarations: Seq<DeclarationView>,
    pub blocks: Seq<BlockView>,
}

impl View for Declaration {
    type V = DeclarationView;

    open spec fn view(&self) -> DeclarationView {
        DeclarationView { property: self.property@, value: self.value@ }
    }
}

/// The views of some declarations, in order.
pub open spec fn declarations_view(declarations: Seq<Declaration>) -> Seq<DeclarationView> {
    Seq::new(declarations.len(), |i: int| declarations[i]@)
}

impl View for Block {
    type V = BlockView;

    open spec fn view(&self) -> BlockView {
        BlockView {
            selector: self.selector@,
            declarations: declarations_view(self.declarations@),
        }
    }
}

impl View for StyleRule {
    type V = RuleView;

    open spec fn view(&self) -> RuleView {
        RuleView {
            selector: self.selector@,
            declarations: declarations_view(self.declarations@),
            blocks: Seq::new(self.blocks@.len(), |i: int| self.blocks@[i]@),
        }
    }
}

/// The views of the rules of a stylesheet, in order.
pub open spec fn sheet_view(rules: Seq<StyleRule>) -> Seq<RuleView> {
    Seq::new(rules.len(), |i: int| rules[i]@)
}

/// The CSS text that `jss::process_css` writes for a stylesheet, without a
/// namespace and without indentation.
pub uninterp spec fn css_text(sheet: Seq<RuleView>) -> Seq<char>;

/// Calls `jss::process_css` on the JSON object that holds the rules in order:
/// each rule under its selector, as an object of its declarations followed by
/// its nested blocks. The result is the CSS text of that object; it depends on
/// the rules alone.
#[verifier::external_body]
fn process_css(rules: &Vec<StyleRule>) -> (css: String)
    ensures
        css@ == css_text(sheet_view(rules@)),
{
    let sheet = Object::from_iter(rules.iter().map(|r| (r.selector.as_str(), Object::from_iter(
        r.declarations.iter().map(|d| (d.property.as_str(), JsonValue::from(d.value.as_str())))
            .chain(r.blocks.iter().map(|b| (b.selector.as_str(), JsonValue::Object(Object::from_iter(
                b.declarations.iter().map(|d| (d.property.as_str(), d.value.as_str())),
            ))))),
    ))));
    sauron::prelude::jss::process_css(None, &JsonValue::Object(sheet), false)
}

/// The declaration of `value` for `property`.
pub open spec fn declare(property: &str, value: &str) -> DeclarationView {
    DeclarationView { property: property@, value: value@ }
}

/// The rule of `selector` with `declarations` and nothing nested.
pub open spec fn plain_rule(selector: &str, declarations: Seq<DeclarationView>) -> RuleView {
    RuleView { selector: selector@, declarations, blocks: Seq::empty() }
}

/// The block of `selector` with one declaration.
pub open spec fn step(selector: &str, property: &str, value: &str) -> BlockView {
    BlockView { selector: selector@, declarations: seq![declare(property, value)] }
}

/// The rules that every page starts from: the body and the header with its
/// links.
pub open spec fn base_sheet() -> Seq<RuleView> {
    seq![
        plain_rule(
            "body",
            seq![
                declare("font_family", "'Arial', sans-serif"),
                declare("margin", "0 auto"),
                declare("max_width", "90rem"),
            ],
        ),
        plain_rule(
            "header",
            seq![
                declare("display", "flex"),
                declare("background_color", "#333"),
                declare("color", "#fff"),
            ],
        ),
        plain_rule(
            "header a",
            seq![
                declare("color", "#fff"),
                declare("padding", "0.5em 2em"),
                declare("text_decoration", "none"),
            ],
        ),
        plain_rule("header a.active", seq![declare("background_color", "#c00")]),
    ]
}

/// The rules of the application: the base rules, the file listing with its
/// marks for directories and files, and the loading indicator with its
/// animation.
pub open spec fn main_sheet() -> Seq<RuleView> {
    base_sheet() + seq![
        plain_rule("table.file-listing", seq![declare("width", "100%")]),
        plain_rule(
            "table.file-listing td.gitobj-tree span::before",
            seq![declare("content", "'\\1f4c1 '")],
        ),
        plain_rule(
            "table.file-listing td.gitobj-blob span::before",
            seq![declare("content", "'\\1f4c4 '")],
        ),
        plain_rule("#indicator, #indicator div", seq![declare("height", "10px")]),
        plain_rule(
            "#indicator div.loading",
            seq![
                declare(
                    "background",
                    "repeating-linear-gradient(-45deg, #c00 0, #c00 33%, #333 0, #333 66%)",
                ),
                declare("background_size", "20px"),
                declare("animation", "loading_indicator 1s infinite linear"),
            ],
        ),
        RuleView {
            selector: "@keyframes loading_indicator"@,
            declarations: Seq::empty(),
            blocks: seq![
                step("from", "background_position", "0px 0px"),
                step("to", "background_position", "-40px 0px"),
            ],
        },
    ]
}

fn no_declarations() -> (declarations: Vec<Declaration>)
    ensures
        declarations_view(declarations@) == Seq::<DeclarationView>::empty(),
{
    let declarations: Vec<Declaration> = Vec::new();
    assert(declarations_view(declarations@) =~= Seq::<DeclarationView>::empty());
    declarations
}

fn add_declaration(declarations: &mut Vec<Declaration>, property: &str, value: &str)
    ensures
        declarations_view(final(declarations)@) == declarations_view(old(declarations)@).push(
            declare(property, value),
        ),
{
    declarations.push(
        Declaration { property: String::from_str(property), value: String::from_str(value) },
    );
    assert(declarations_view(declarations@) =~= declarations_view(old(declarations)@).push(
        declare(property, value),
    ));
}

fn add_rule(
    sheet: &mut Vec<StyleRule>,
    selector: &str,
    declarations: Vec<Declaration>,
    blocks: Vec<Block>,
)
    ensures
        sheet_view(final(sheet)@) == sheet_view(old(sheet)@).push(
            RuleView {
                selector: selector@,
                declarations: declarations_view(declarations@),
                blocks: Seq::new(blocks@.len(), |i: int| blocks@[i]@),
            },
        ),
{
    let ghost added = RuleView {
        selector: selector@,
        declarations: declarations_view(declarations@),
        blocks: Seq::new(blocks@.len(), |i: int| blocks@[i]@),
    };
    sheet.push(StyleRule { selector: String::from_str(selector), declarations, blocks });
    assert(sheet_view(sheet@) =~= sheet_view(old(sheet)@).push(added));
}

fn add_plain_rule(sheet: &mut Vec<StyleRule>, selector: &str, declarations: Vec<Declaration>)
    ensures
        sheet_view(final(sheet)@) == sheet_view(old(sheet)@).push(
            plain_rule(selector, declarations_view(declarations@)),
        ),
{
    let blocks: Vec<Block> = Vec::new();
    assert(Seq::new(blocks@.len(), |i: int| blocks@[i]@) =~= Seq::<BlockView>::empty());
    add_rule(sheet, selector, declarations, blocks);
}

fn add_step(blocks: &mut Vec<Block>, selector: &str, property: &str, value: &str)
    ensures
        Seq::new(final(blocks)@.len(), |i: int| final(blocks)@[i]@) == Seq::new(
            old(blocks)@.len(),
            |i: int| old(blocks)@[i]@,
        ).push(step(selector, property, value)),
{
    let mut declarations = no_declarations();
    add_declaration(&mut declarations, property, value);
    blocks.push(Block { selector: String::from_str(selector), declarations });
    assert(Seq::new(blocks@.len(), |i: int| blocks@[i]@) =~= Seq::new(
        old(blocks)@.len(),
        |i: int| old(blocks)@[i]@,
    ).push(step(selector, property, value)));
}

fn add_base_rules(sheet: &mut Vec<StyleRule>)
    ensures
        sheet_view(final(sheet)@) == sheet_view(old(sheet)@) + base_sheet(),
{
    let mut body = no_declarations();
    add_declaration(&mut body, "font_family", "'Arial', sans-serif");
    add_declaration(&mut body, "margin", "0 auto");
    add_declaration(&mut body, "max_width", "90rem");
    assert(declarations_view(body@) == seq![
        declare("font_family", "'Arial', sans-serif"),
        declare("margin", "0 auto"),
        declare("max_width", "90rem"),
    ]);
    add_plain_rule(sheet, "body", body);
    let mut header = no_declarations();
    add_declaration(&mut header, "display", "flex");
    add_declaration(&mut header, "background_color", "#333");
    add_declaration(&mut header, "color", "#fff");
    assert(declarations_view(header@) == seq![
        declare("display", "flex"),
        declare("background_color", "#333"),
        declare("color", "#fff"),
    ]);
    add_plain_rule(sheet, "header", header);
    let mut link = no_declarations();
    add_declaration(&mut link, "color", "#fff");
    add_declaration(&mut link, "padding", "0.5em 2em");
    add_declaration(&mut link, "text_decoration", "none");
    assert(declarations_view(link@) == seq![
        declare("color", "#fff"),
        declare("padding", "0.5em 2em"),
        declare("text_decoration", "none"),
    ]);
    add_plain_rule(sheet, "header a", link);
    let mut active = no_declarations();
    add_declaration(&mut active, "background_color", "#c00");
    assert(declarations_view(active@) == seq![declare("background_color", "#c00")]);
    add_plain_rule(sheet, "header a.active", active);
    assert(sheet_view(sheet@) =~= sheet_view(old(sheet)@) + base_sheet());
}

/// The stylesheet of the application, as CSS text: what `jss::process_css`
/// writes for the rules of `main_sheet`.
pub fn style() -> (css: String)
    ensures
        css@ == css_text(main_sheet()),
{
    let mut sheet: Vec<StyleRule> = Vec::new();
    assert(sheet_view(sheet@) =~= Seq::<RuleView>::empty());
    add_base_rules(&mut sheet);
    let mut listing = no_declarations();
    add_declaration(&mut listing, "width", "100%");
    assert(declarations_view(listing@) == seq![declare("width", "100%")]);
    add_plain_rule(&mut sheet, "table.file-listing", listing);
    let mut tree = no_declarations();
    add_declaration(&mut tree, "content", "'\\1f4c1 '");
    assert(declarations_view(tree@) == seq![declare("content", "'\\1f4c1 '")]);
    add_plain_rule(&mut sheet, "table.file-listing td.gitobj-tree span::before", tree);
    let mut blob = no_declarations();
    add_declaration(&mut blob, "content", "'\\1f4c4 '");
    assert(declarations_view(blob@) == seq![declare("content", "'\\1f4c4 '")]);
    add_plain_rule(&mut sheet, "table.file-listing td.gitobj-blob span::before", blob);
    let mut indicator = no_declarations();
    add_declaration(&mut indicator, "height", "10px");
    assert(declarations_view(indicator@) == seq![declare("height", "10px")]);
    add_plain_rule(&mut sheet, "#indicator, #indicator div", indicator);
    let mut loading = no_declarations();
    add_declaration(
        &mut loading,
        "background",
        "repeating-linear-gradient(-45deg, #c00 0, #c00 33%, #333 0, #333 66%)",
    );
    add_declaration(&mut loading, "background_size", "20px");
    add_declaration(&mut loading, "animation", "loading_indicator 1s infinite linear");
    assert(declarations_view(loading@) == seq![
        declare(
            "background",
            "repeating-linear-gradient(-45deg, #c00 0, #c00 33%, #333 0, #333 66%)",
        ),
        declare("background_size", "20px"),
        declare("animation", "loading_indicator 1s infinite linear"),
    ]);
    add_plain_rule(&mut sheet, "#indicator div.loading", loading);
    let mut steps: Vec<Block> = Vec::new();
    assert(Seq::new(steps@.len(), |i: int| steps@[i]@) =~= Seq::<BlockView>::empty());
    add_step(&mut steps, "from", "background_position", "0px 0px");
    add_step(&mut steps, "to", "background_position", "-40px 0px");
    assert(Seq::new(steps@.len(), |i: int| steps@[i]@) == seq![
        step("from", "background_position", "0px 0px"),
        step("to", "background_position", "-40px 0px"),
    ]);
    add_rule(&mut sheet, "@keyframes loading_indicator", no_declarations(), steps);
    assert(sheet_view(sheet@) =~= main_sheet());
    process_css(&sheet)
}

/// The text of the module script that starts the client with the state that
/// the server rendered: `state` stands in it verbatim, between backticks.
pub open spec fn bootstrap_script(state: Seq<char>) -> Seq<char> {
    "\nimport init, { main } from '/pkg/client.js';\nasync function start() {\n  await init();\n  let app_state = String.raw`"@
        + state
        + "`;\n  await main(app_state);\n}\nstart();"@
}

/// The page that carries the application: an English document with its title,
/// the script that hands `serialized_state` to the client, and the stylesheet.
pub fn index(serialized_state: &str) -> (page: Page)
    ensures
        page@ == (PageView {
            lang: "en"@,
            title: "Example app"@,
            script: Some(bootstrap_script(serialized_state@)),
            stylesheet: Some("/style/main.css"@),
        }),
{
    let mut script = String::from_str(
        "\nimport init, { main } from '/pkg/client.js';\nasync function start() {\n  await init();\n  let app_state = String.raw`",
    );
    script.append(serialized_state);
    script.append("`;\n  await main(app_state);\n}\nstart();");
    Page {
        lang: String::from_str("en"),
        title: String::from_str("Example app"),
        script: Some(script),
        stylesheet: Some(String::from_str("/style/main.css")),
    }
}

} // verus!
