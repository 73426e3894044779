//! Turning menus into styled text for an ANSI terminal.

use crate::api::{menu_views, Menu, MenuView, PriceView};
use crate::calendar::{format_moment, moment_text};
use crate::config::{chosen_link, Config, ConfigView};
use crate::text::{
    ensure_slash, join, joined, text_of, texts, to_uppercase, trim, trimmed, uppercase,
    with_slash, without_slash, wrap, wrapped,
};
use vstd::prelude::*;
use vstd::string::*;

verus! {

/// The characters that switch a terminal to the style `code`.
pub open spec fn style_intro(code: Seq<char>) -> Seq<char> {
    seq!['\u{1b}', '['] + code + seq!['m']
}

/// The characters that switch a terminal back to its default style.
pub open spec fn style_reset() -> Seq<char> {
    seq!['\u{1b}', '[', '0', 'm']
}

/// `text` wrapped in the style `code`: the introduction of the style, the text, the
/// reset.
pub open spec fn styled(text: Seq<char>, code: Seq<char>) -> Seq<char> {
    style_intro(code) + text + style_reset()
}

/// Wraps `s` in the style `format`. The code is taken as it is, whatever it holds.
pub fn format_ansi(s: &str, format: &str) -> (target: String)
    ensures
        target@ == styled(s@, format@),
{
    proof {
        reveal_strlit("\x1B[");
        reveal_strlit("m");
        reveal_strlit("\x1B[0m");
    }
    let mut target = String::new();
    target.append("\x1B[");
    target.append(format);
    target.append("m");
    target.append(s);
    target.append("\x1B[0m");
    assert(target@ =~= styled(s@, format@));
    target
}

/// How menus are laid out: a style code for each part, and the texts that the layout
/// adds of its own.
#[derive(Debug, PartialEq, Eq)]
pub struct FormatConfig {
    pub title_ansi: String,
    /// The `strftime` pattern after which the date is written.
    pub date_format: String,
    pub date_ansi: String,
    /// The names of the labels: the name of label `k` stands at index `k - 1`.
    pub label_text: Vec<String>,
    /// The styles of the labels: the style of label `k` stands at index `k - 1`.
    pub label_ansi: Vec<String>,
    pub description_ansi: String,
    /// The number of columns to which the description is wrapped.
    pub description_width: u32,
    pub id_ansi: String,
    /// What stands between two prices.
    pub price_separator: String,
    pub price_separator_ansi: String,
    pub price_amount_ansi: String,
    pub price_group_ansi: String,
    pub link_ansi: String,
    /// What is shown where there is no menu.
    pub not_found_text: String,
    pub not_found_ansi: String,
}

/// What a `FormatConfig` holds.
pub struct FormatConfigView {
    pub title_ansi: Seq<char>,
    pub date_format: Seq<char>,
    pub date_ansi: Seq<char>,
    pub label_text: Seq<Seq<char>>,
    pub label_ansi: Seq<Seq<char>>,
    pub description_ansi: Seq<char>,
    pub description_width: u32,
    pub id_ansi: Seq<char>,
    pub price_separator: Seq<char>,
    pub price_separator_ansi: Seq<char>,
    pub price_amount_ansi: Seq<char>,
    pub price_group_ansi: Seq<char>,
    pub link_ansi: Seq<char>,
    pub not_found_text: Seq<char>,
    pub not_found_ansi: Seq<char>,
}

impl View for FormatConfig {
    type V = FormatConfigView;

    open spec fn view(&self) -> FormatConfigView {
        FormatConfigView {
            title_ansi: self.title_ansi@,
            date_format: self.date_format@,
            date_ansi: self.date_ansi@,
            label_text: texts(self.label_text@),
            label_ansi: texts(self.label_ansi@),
            description_ansi: self.description_ansi@,
            description_width: self.description_width,
            id_ansi: self.id_ansi@,
            price_separator: self.price_separator@,
            price_separator_ansi: self.price_separator_ansi@,
            price_amount_ansi: self.price_amount_ansi@,
            price_group_ansi: self.price_group_ansi@,
            link_ansi: self.link_ansi@,
            not_found_text: self.not_found_text@,
            not_found_ansi: self.not_found_ansi@,
        }
    }
}

/// The layout that is used where the user has set none.
pub open spec fn default_format() -> FormatConfigView {
    FormatConfigView {
        title_ansi: "1;4"@,
        date_format: "[%d.%m.%y]"@,
        date_ansi: "0"@,
        label_text: seq!["Vegetarian"@, "Vegan"@, "One Climate"@],
        label_ansi: seq!["32"@, "92"@, "31"@],
        description_ansi: "0"@,
        description_width: 55,
        id_ansi: "90;3"@,
        price_separator: " | "@,
        price_separator_ansi: "90"@,
        price_amount_ansi: "0"@,
        price_group_ansi: "0"@,
        link_ansi: "0"@,
        not_found_text: "No menus found!"@,
        not_found_ansi: "90"@,
    }
}

/// A copy of `v`, string by string.
fn copy_texts(v: &Vec<String>) -> (r: Vec<String>)
    ensures
        texts(r@) == texts(v@),
{
    let mut r: Vec<String> = Vec::new();
    let mut i: usize = 0;
    while i < v.len()
        invariant
            i <= v.len(),
            r.len() == i,
            forall|k: int| 0 <= k < i ==> r@[k]@ == v@[k]@,
        decreases v.len() - i,
    {
        r.push(v[i].clone());
        i += 1;
    }
    assert(texts(r@) =~= texts(v@));
    r
}

impl Default for FormatConfig {
    fn default() -> (r: Self)
        ensures
            r@ == default_format(),
    {
        let label_text = vec!["Vegetarian".to_owned(), "Vegan".to_owned(), "One Climate".to_owned()];
        let label_ansi = vec!["32".to_owned(), "92".to_owned(), "31".to_owned()];
        assert(texts(label_text@) =~= seq!["Vegetarian"@, "Vegan"@, "One Climate"@]);
        assert(texts(label_ansi@) =~= seq!["32"@, "92"@, "31"@]);
        FormatConfig {
            date_format: "[%d.%m.%y]".to_owned(),
            title_ansi: "1;4".to_owned(),
            date_ansi: "0".to_owned(),
            label_text,
            label_ansi,
            description_ansi: "0".to_owned(),
            description_width: 55,
            id_ansi: "90;3".to_owned(),
            price_separator: " | ".to_owned(),
            price_separator_ansi: "90".to_owned(),
            price_amount_ansi: "0".to_owned(),
            price_group_ansi: "0".to_owned(),
            link_ansi: "0".to_owned(),
            not_found_text: "No menus found!".to_owned(),
            not_found_ansi: "90".to_owned(),
        }
    }
}

impl Clone for FormatConfig {
    fn clone(&self) -> (r: Self)
        ensures
            r@ == self@,
    {
        FormatConfig {
            title_ansi: self.title_ansi.clone(),
            date_format: self.date_format.clone(),
            date_ansi: self.date_ansi.clone(),
            label_text: copy_texts(&self.label_text),
            label_ansi: copy_texts(&self.label_ansi),
            description_ansi: self.description_ansi.clone(),
            description_width: self.description_width,
            id_ansi: self.id_ansi.clone(),
            price_separator: self.price_separator.clone(),
            price_separator_ansi: self.price_separator_ansi.clone(),
            price_amount_ansi: self.price_amount_ansi.clone(),
            price_group_ansi: self.price_group_ansi.clone(),
            link_ansi: self.link_ansi.clone(),
            not_found_text: self.not_found_text.clone(),
            not_found_ansi: self.not_found_ansi.clone(),
        }
    }
}

/// Lays out menus for one terminal.
pub struct MenuPrinter {
    id: bool,
    link: Option<String>,
    config: FormatConfig,
}

/// What a `MenuPrinter` holds.
pub struct MenuPrinterView {
    /// Whether the identifier of each menu is shown.
    pub id: bool,
    /// The address of the website, where links are shown.
    pub link: Option<Seq<char>>,
    /// The layout.
    pub config: FormatConfigView,
}

impl View for MenuPrinter {
    type V = MenuPrinterView;

    closed spec fn view(&self) -> MenuPrinterView {
        MenuPrinterView { id: self.id, link: text_of(self.link), config: self.config@ }
    }
}

/// A line break.
pub open spec fn line_break() -> Seq<char> {
    seq!['\n']
}

/// A space.
pub open spec fn space() -> Seq<char> {
    seq![' ']
}

/// The title of a menu, styled.
pub open spec fn title_part(config: FormatConfigView, title: Seq<char>) -> Seq<char> {
    styled(title, config.title_ansi)
}

/// The date of a menu, styled, where `text` is the date as it was written out.
pub open spec fn date_part(config: FormatConfigView, text: Seq<char>) -> Seq<char> {
    styled(text, config.date_ansi)
}

/// The name of the label `label`: the one at index `label - 1`, or `Unknown Label`
/// where there is none.
pub open spec fn label_name(config: FormatConfigView, label: u8) -> Seq<char> {
    if 1 <= label <= config.label_text.len() {
        config.label_text[label - 1]
    } else {
        "Unknown Label"@
    }
}

/// The style of the label `label`: the one at index `label - 1`, or the default code
/// `0` where there is none.
pub open spec fn label_style(config: FormatConfigView, label: u8) -> Seq<char> {
    if 1 <= label <= config.label_ansi.len() {
        config.label_ansi[label - 1]
    } else {
        "0"@
    }
}

/// The label of a menu: nothing for the label 0, else its name in its style.
pub open spec fn label_part(config: FormatConfigView, label: u8) -> Seq<char> {
    if label == 0 {
        Seq::empty()
    } else {
        styled(label_name(config, label), label_style(config, label))
    }
}

/// The identifier of a menu: styled and on a line of its own where identifiers are
/// shown, else nothing.
pub open spec fn id_part(printer: MenuPrinterView, id: Seq<char>) -> Seq<char> {
    if printer.id {
        styled(id, printer.config.id_ansi) + line_break()
    } else {
        Seq::empty()
    }
}

/// The description of a menu from the lines it was wrapped to: the lines joined by
/// line breaks, and the whole of it styled once.
pub open spec fn description_part(config: FormatConfigView, lines: Seq<Seq<char>>) -> Seq<char> {
    styled(joined(lines, line_break()), config.description_ansi)
}

/// One price: the group in its style, a space, the amount in its style.
pub open spec fn price_entry(config: FormatConfigView, group: Seq<char>, amount: Seq<char>) -> Seq<
    char,
> {
    styled(group, config.price_group_ansi) + space() + styled(amount, config.price_amount_ansi)
}

/// The prices one by one, in their order, each with its tag in upper case.
pub open spec fn price_entries(config: FormatConfigView, prices: Seq<PriceView>) -> Seq<
    Seq<char>,
> {
    Seq::new(
        prices.len(),
        |i: int| price_entry(config, uppercase(prices[i].tag), prices[i].amount),
    )
}

/// What stands between two prices: the separator in its style.
pub open spec fn price_separator(config: FormatConfigView) -> Seq<char> {
    styled(config.price_separator, config.price_separator_ansi)
}

/// The prices of a menu: the entries in their order, with the separator between each
/// two. Nothing where there is no price.
pub open spec fn price_part(config: FormatConfigView, prices: Seq<PriceView>) -> Seq<char> {
    joined(price_entries(config, prices), price_separator(config))
}

/// Whether links are shown: a website is set, and its address is not empty.
pub open spec fn shows_link(printer: MenuPrinterView) -> bool {
    printer.link matches Some(base) && base.len() > 0
}

/// The address of the page of the menu `id` on the website at `base`.
pub open spec fn link_target(base: Seq<char>, id: Seq<char>) -> Seq<char> {
    with_slash(base) + "menu/"@ + id
}

/// The link of a menu: its address, styled and on a line of its own, where links are
/// shown, else nothing.
pub open spec fn link_part(printer: MenuPrinterView, id: Seq<char>) -> Seq<char> {
    if shows_link(printer) {
        styled(link_target(printer.link->0, id), printer.config.link_ansi) + line_break()
    } else {
        Seq::empty()
    }
}

/// The parts of a menu put together: title, date and label on the first line, then
/// the identifier and the description, then the prices, then the link.
pub open spec fn block(
    title: Seq<char>,
    date: Seq<char>,
    label: Seq<char>,
    id: Seq<char>,
    description: Seq<char>,
    price: Seq<char>,
    link: Seq<char>,
) -> Seq<char> {
    title + space() + date + space() + label + line_break() + id + description + line_break()
        + price + line_break() + link
}

/// What is written for one menu from its parts: the block without the white space at
/// its ends, then an empty line.
pub open spec fn composed(
    title: Seq<char>,
    date: Seq<char>,
    label: Seq<char>,
    id: Seq<char>,
    description: Seq<char>,
    price: Seq<char>,
    link: Seq<char>,
) -> Seq<char> {
    trimmed(block(title, date, label, id, description, price, link)) + line_break()
        + line_break()
}

/// What is written for `menu`, where `date` is its date as it was written out.
pub open spec fn menu_text(printer: MenuPrinterView, menu: MenuView, date: Seq<char>) -> Seq<
    char,
> {
    composed(
        title_part(printer.config, menu.title),
        date_part(printer.config, date),
        label_part(printer.config, menu.label),
        id_part(printer, menu.id),
        description_part(
            printer.config,
            wrapped(menu.description, printer.config.description_width as nat),
        ),
        price_part(printer.config, menu.prices),
        link_part(printer, menu.id),
    )
}

/// What is written for `menu`: nothing where its date cannot be written out after the
/// pattern of the layout.
pub open spec fn menu_output(printer: MenuPrinterView, menu: MenuView) -> Option<Seq<char>> {
    match moment_text(menu.date, printer.config.date_format) {
        Some(date) => Some(menu_text(printer, menu, date)),
        None => None,
    }
}

/// What is written for `menus`, one after the other: nothing where one of them cannot
/// be written.
pub open spec fn menus_text(printer: MenuPrinterView, menus: Seq<MenuView>) -> Option<
    Seq<char>,
>
    decreases menus.len(),
{
    if menus.len() == 0 {
        Some(Seq::empty())
    } else {
        match (menus_text(printer, menus.drop_last()), menu_output(printer, menus.last())) {
            (Some(before), Some(last)) => Some(before + last),
            _ => None,
        }
    }
}

/// What is written where there is no menu: the text for it in its style, then an
/// empty line.
pub open spec fn not_found_text(config: FormatConfigView) -> Seq<char> {
    styled(config.not_found_text, config.not_found_ansi) + line_break() + line_break()
}

/// What is written for a list of menus.
pub open spec fn output(printer: MenuPrinterView, menus: Seq<MenuView>) -> Option<Seq<char>> {
    if menus.len() == 0 {
        Some(not_found_text(printer.config))
    } else {
        menus_text(printer, menus)
    }
}

/// A menu with the label 0 has no label section, whatever the layout.
pub proof fn law_no_label(config: FormatConfigView)
    ensures
        label_part(config, 0) == Seq::<char>::empty(),
{
}

/// A label beyond the list of names is called `Unknown Label`, one beyond the list of
/// styles has the default code `0`; one beyond both is `Unknown Label` in the default
/// style.
pub proof fn law_unknown_label(config: FormatConfigView, label: u8)
    ensures
        label > config.label_text.len() ==> label_name(config, label) == "Unknown Label"@,
        label > config.label_ansi.len() ==> label_style(config, label) == "0"@,
        label > config.label_text.len() && label > config.label_ansi.len() ==> label_part(
            config,
            label,
        ) == styled("Unknown Label"@, "0"@),
{
}

/// A label within both lists is shown by the name and in the style at index
/// `label - 1`.
pub proof fn law_known_label(config: FormatConfigView, label: u8)
    requires
        1 <= label <= config.label_text.len(),
        label <= config.label_ansi.len(),
    ensures
        label_part(config, label) == styled(
            config.label_text[label - 1],
            config.label_ansi[label - 1],
        ),
{
}

/// For an empty list the text for it is written, in its style and followed by an
/// empty line, whatever else is set.
pub proof fn law_empty_list(printer: MenuPrinterView)
    ensures
        output(printer, Seq::empty()) == Some(not_found_text(printer.config)),
{
}

/// The prices stand in the order of the list: a price added at its end is written
/// last, after the separator, and leaves what stands before it as it was.
pub proof fn law_prices_in_order(config: FormatConfigView, prices: Seq<PriceView>, last: PriceView)
    ensures
        price_part(config, Seq::empty()) == Seq::<char>::empty(),
        price_part(config, prices.push(last)) == if prices.len() == 0 {
            price_entry(config, uppercase(last.tag), last.amount)
        } else {
            price_part(config, prices) + price_separator(config) + price_entry(
                config,
                uppercase(last.tag),
                last.amount,
            )
        },
{
    let longer = price_entries(config, prices.push(last));
    assert(longer.drop_last() =~= price_entries(config, prices));
    assert(longer.last() == price_entry(config, uppercase(last.tag), last.amount));
}

/// The amount of a price is written as the list holds it: between the style of
/// amounts and the reset, after the group and a space.
pub proof fn law_amount_unchanged(config: FormatConfigView, prices: Seq<PriceView>, i: int)
    requires
        0 <= i < prices.len(),
    ensures
        price_entries(config, prices)[i] == styled(
            uppercase(prices[i].tag),
            config.price_group_ansi,
        ) + space() + style_intro(config.price_amount_ansi) + prices[i].amount + style_reset(),
{
    let entry = price_entries(config, prices)[i];
    assert(entry =~= styled(uppercase(prices[i].tag), config.price_group_ansi) + space()
        + style_intro(config.price_amount_ansi) + prices[i].amount + style_reset());
}

/// No link is written where none is shown. Where one is shown, exactly one slash
/// stands between the address of the website and `menu/`, whether or not the address
/// ends with one.
pub proof fn law_link(printer: MenuPrinterView, id: Seq<char>)
    ensures
        !shows_link(printer) ==> link_part(printer, id) == Seq::<char>::empty(),
        shows_link(printer) ==> link_part(printer, id) == styled(
            without_slash(printer.link->0) + "/menu/"@ + id,
            printer.config.link_ansi,
        ) + line_break(),
{
    reveal_strlit("menu/");
    reveal_strlit("/menu/");
    if shows_link(printer) {
        let base = printer.link->0;
        assert(with_slash(base) + "menu/"@ + id =~= without_slash(base) + "/menu/"@ + id);
    }
}

/// A printer that takes its link from the settings shows links only where the
/// settings ask for them and name a website.
pub proof fn law_link_of_settings(config: ConfigView, id: bool, menu: Seq<char>)
    ensures
        ({
            let printer = MenuPrinterView { id, link: chosen_link(config), config: config.format };
            &&& shows_link(printer) <==> config.display_links && config.website_remote.len() > 0
            &&& !config.display_links || config.website_remote.len() == 0 ==> link_part(
                printer,
                menu,
            ) == Seq::<char>::empty()
        }),
{
}

/// The menus stand in the order of the list: a menu added at its end is written last,
/// and leaves what stands before it as it was.
pub proof fn law_menus_in_order(printer: MenuPrinterView, menus: Seq<MenuView>, last: MenuView)
    ensures
        menus_text(printer, menus.push(last)) == match (
            menus_text(printer, menus),
            menu_output(printer, last),
        ) {
            (Some(before), Some(text)) => Some(before + text),
            _ => None,
        },
{
    assert(menus.push(last).drop_last() =~= menus);
}

/// A list can be written where each of its menus can, and only there.
pub proof fn law_list_written_where_each_is(printer: MenuPrinterView, menus: Seq<MenuView>)
    ensures
        menus_text(printer, menus) is Some <==> forall|i: int|
            0 <= i < menus.len() ==> (#[trigger] menu_output(printer, menus[i])) is Some,
    decreases menus.len(),
{
    if menus.len() > 0 {
        let front = menus.drop_last();
        law_list_written_where_each_is(printer, front);
        if menus_text(printer, menus) is Some {
            assert forall|i: int| 0 <= i < menus.len() implies (#[trigger] menu_output(
                printer,
                menus[i],
            )) is Some by {
                if i < front.len() {
                    assert(menus[i] == front[i]);
                }
            }
        } else if menus_text(printer, front) is None {
            let i = choose|i: int|
                0 <= i < front.len() && !((#[trigger] menu_output(printer, front[i])) is Some);
            assert(menus[i] == front[i]);
        }
    }
}

/// Puts the parts of a menu together, takes the white space off both ends and adds an
/// empty line.
pub fn compose(
    title: &str,
    date: &str,
    label: &str,
    id: &str,
    description: &str,
    price: &str,
    link: &str,
) -> (r: String)
    ensures
        r@ == composed(title@, date@, label@, id@, description@, price@, link@),
{
    proof {
        reveal_strlit(" ");
        reveal_strlit("\n");
    }
    let mut menu = String::new();
    menu.append(title);
    menu.append(" ");
    menu.append(date);
    menu.append(" ");
    menu.append(label);
    menu.append("\n");
    menu.append(id);
    menu.append(description);
    menu.append("\n");
    menu.append(price);
    menu.append("\n");
    menu.append(link);
    assert(menu@ =~= block(title@, date@, label@, id@, description@, price@, link@));
    let mut r = trim(menu.as_str()).to_owned();
    r.append("\n");
    r.append("\n");
    assert(r@ =~= composed(title@, date@, label@, id@, description@, price@, link@));
    r
}

impl MenuPrinter {
    /// A printer with the layout of `config`. It shows identifiers where `id` is set,
    /// and links to the website at `link` where there is one.
    pub fn new(config: &Config, id: bool, link: &Option<String>) -> (printer: Self)
        ensures
            printer@ == (MenuPrinterView {
                id,
                link: text_of(*link),
                config: config@.format,
            }),
    {
        let link = match link {
            Some(base) => Some(base.clone()),
            None => None,
        };
        MenuPrinter { id, config: config.format.clone(), link }
    }

    /// What is written for `menus`: the text for an empty list where there is none,
    /// else each menu in its turn. `None` where the date of one of them cannot be
    /// written out after the pattern of the layout.
    pub fn print_menus(&self, menus: Vec<Menu>) -> (r: Option<String>)
        ensures
            text_of(r) == output(self@, menu_views(menus@)),
            menus.len() == 0 ==> text_of(r) == Some(not_found_text(self@.config)),
            r is Some <==> forall|i: int|
                0 <= i < menus.len() ==> (#[trigger] menu_output(self@, menus@[i]@)) is Some,
    {
        if menus.len() == 0 {
            let mut out = format_ansi(
                self.config.not_found_text.as_str(),
                self.config.not_found_ansi.as_str(),
            );
            proof {
                reveal_strlit("\n");
            }
            out.append("\n");
            out.append("\n");
            assert(out@ =~= not_found_text(self@.config));
            return Some(out);
        }
        let ghost all = menu_views(menus@);
        let mut out = String::new();
        let mut i: usize = 0;
        while i < menus.len()
            invariant
                i <= menus.len(),
                all == menu_views(menus@),
                menus_text(self@, all.take(i as int)) == Some(out@),
            decreases menus.len() - i,
        {
            let ghost before = all.take(i as int);
            let ghost after = all.take(i + 1);
            assert(after.drop_last() =~= before);
            assert(after.last() == menus@[i as int]@);
            match self.render(&menus[i]) {
                Some(text) => {
                    out.append(text.as_str());
                },
                None => {
                    proof {
                        law_list_written_where_each_is(self@, all);
                        assert(menu_output(self@, all[i as int]) is None);
                    }
                    return None;
                },
            }
            i += 1;
        }
        proof {
            assert(all.take(menus.len() as int) =~= all);
            law_list_written_where_each_is(self@, all);
            assert forall|i: int| 0 <= i < menus.len() implies (#[trigger] menu_output(
                self@,
                menus@[i]@,
            )) is Some by {
                assert(all[i] == menus@[i]@);
            }
        }
        Some(out)
    }

    /// What is written for `menu`. `None` where its date cannot be written out after
    /// the pattern of the layout.
    pub fn print_menu(&self, menu: Menu) -> (r: Option<String>)
        ensures
            text_of(r) == menu_output(self@, menu@),
            r is Some <==> moment_text(menu.date, self@.config.date_format) is Some,
    {
        self.render(&menu)
    }

    /// What is written for `menu`.
    fn render(&self, menu: &Menu) -> (r: Option<String>)
        ensures
            text_of(r) == menu_output(self@, menu@),
    {
        match self.format_date(menu) {
            Some(date) => {
                let title = self.format_title(menu);
                let label = self.format_label(menu);
                let id = self.format_id(menu);
                let description = self.format_description(menu);
                let price = self.format_price(menu);
                let link = self.format_link(menu);
                Some(
                    compose(
                        title.as_str(),
                        date.as_str(),
                        label.as_str(),
                        id.as_str(),
                        description.as_str(),
                        price.as_str(),
                        link.as_str(),
                    ),
                )
            },
            None => None,
        }
    }

    /// The title of `menu` in its style.
    pub fn format_title(&self, menu: &Menu) -> (r: String)
        ensures
            r@ == title_part(self@.config, menu@.title),
    {
        format_ansi(menu.title.as_str(), self.config.title_ansi.as_str())
    }

    /// A date that was written out, in the style of dates.
    pub fn style_date(&self, text: &str) -> (r: String)
        ensures
            r@ == date_part(self@.config, text@),
    {
        format_ansi(text, self.config.date_ansi.as_str())
    }

    /// The date of `menu`, written out after the pattern of the layout, in its style.
    /// `None` where it cannot be written out so.
    pub fn format_date(&self, menu: &Menu) -> (r: Option<String>)
        ensures
            text_of(r) == match moment_text(menu.date, self@.config.date_format) {
                Some(text) => Some(date_part(self@.config, text)),
                None => None,
            },
    {
        match format_moment(menu.date, self.config.date_format.as_str()) {
            Some(text) => Some(self.style_date(text.as_str())),
            None => None,
        }
    }

    /// The label of `menu`: nothing for the label 0, else its name in its style. A
    /// label without a name is called `Unknown Label`, one without a style has the
    /// default code `0`.
    pub fn format_label(&self, menu: &Menu) -> (r: String)
        ensures
            r@ == label_part(self@.config, menu.label),
            menu.label == 0 ==> r@ == Seq::<char>::empty(),
            menu.label > self@.config.label_text.len() && menu.label
                > self@.config.label_ansi.len() ==> r@ == styled("Unknown Label"@, "0"@),
    {
        if menu.label == 0 {
            return String::new();
        }
        let index: usize = (menu.label - 1) as usize;
        let name = if index < self.config.label_text.len() {
            self.config.label_text[index].as_str()
        } else {
            "Unknown Label"
        };
        let style = if index < self.config.label_ansi.len() {
            self.config.label_ansi[index].as_str()
        } else {
            "0"
        };
        format_ansi(name, style)
    }

    /// Lines of a description, joined by line breaks and styled as one.
    pub fn style_description(&self, lines: &Vec<String>) -> (r: String)
        ensures
            r@ == description_part(self@.config, texts(lines@)),
    {
        proof {
            reveal_strlit("\n");
        }
        let text = join(lines, "\n");
        assert("\n"@ =~= line_break());
        format_ansi(text.as_str(), self.config.description_ansi.as_str())
    }

    /// The description of `menu`, wrapped to the width of the layout and styled as
    /// one.
    pub fn format_description(&self, menu: &Menu) -> (r: String)
        ensures
            r@ == description_part(
                self@.config,
                wrapped(menu@.description, self@.config.description_width as nat),
            ),
    {
        let lines = wrap(menu.description.as_str(), self.config.description_width as usize);
        self.style_description(&lines)
    }

    /// The identifier of `menu`, styled and on a line of its own, where identifiers
    /// are shown, else nothing.
    pub fn format_id(&self, menu: &Menu) -> (r: String)
        ensures
            r@ == id_part(self@, menu@.id),
    {
        if self.id {
            let mut id = format_ansi(menu.id.as_str(), self.config.id_ansi.as_str());
            proof {
                reveal_strlit("\n");
            }
            id.append("\n");
            assert(id@ =~= id_part(self@, menu@.id));
            id
        } else {
            String::new()
        }
    }

    /// One price: `group` in the style of groups, a space, `amount` in the style of
    /// amounts.
    pub fn format_price_entry(&self, group: &str, amount: &str) -> (r: String)
        ensures
            r@ == price_entry(self@.config, group@, amount@),
    {
        let mut r = format_ansi(group, self.config.price_group_ansi.as_str());
        proof {
            reveal_strlit(" ");
        }
        r.append(" ");
        r.append(format_ansi(amount, self.config.price_amount_ansi.as_str()).as_str());
        assert(r@ =~= price_entry(self@.config, group@, amount@));
        r
    }

    /// The prices of `menu` in their order, each with its tag in upper case, with the
    /// styled separator between each two.
    pub fn format_price(&self, menu: &Menu) -> (r: String)
        ensures
            r@ == price_part(self@.config, menu@.prices),
            menu.prices.len() == 0 ==> r@ == Seq::<char>::empty(),
    {
        let ghost all = price_entries(self@.config, menu@.prices);
        let mut entries: Vec<String> = Vec::new();
        let mut i: usize = 0;
        while i < menu.prices.len()
            invariant
                i <= menu.prices.len(),
                all == price_entries(self@.config, menu@.prices),
                texts(entries@) == all.take(i as int),
            decreases menu.prices.len() - i,
        {
            let ghost before = texts(entries@);
            let price = &menu.prices[i];
            let group = to_uppercase(price.tag.as_str());
            let entry = self.format_price_entry(group.as_str(), price.amount.as_str());
            entries.push(entry);
            assert(texts(entries@) =~= before.push(entry@));
            assert(all.take(i + 1) =~= all.take(i as int).push(all[i as int]));
            i += 1;
        }
        assert(all.take(menu.prices.len() as int) =~= all);
        let separator = format_ansi(
            self.config.price_separator.as_str(),
            self.config.price_separator_ansi.as_str(),
        );
        join(&entries, separator.as_str())
    }

    /// The link to the page of `menu`, styled and on a line of its own, where links
    /// are shown, else nothing.
    pub fn format_link(&self, menu: &Menu) -> (r: String)
        ensures
            r@ == link_part(self@, menu@.id),
            !shows_link(self@) ==> r@ == Seq::<char>::empty(),
    {
        match &self.link {
            None => String::new(),
            Some(base) => {
                if base.as_str().is_empty() {
                    return String::new();
                }
                let mut link = ensure_slash(base.clone());
                link.append("menu/");
                link.append(menu.id.as_str());
                let mut link = format_ansi(link.as_str(), self.config.link_ansi.as_str());
                proof {
                    reveal_strlit("\n");
                }
                link.append("\n");
                assert(link@ =~= link_part(self@, menu@.id));
                link
            },
        }
    }
}

} // verus!
