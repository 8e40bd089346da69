use duden::{
    candidate_line, parse_selection, search_url, url, Item, ItemSource, Queries, Selection,
};
use scraper::Html;

fn frags(parts: &[&str]) -> Vec<String> {
    parts.iter().map(|s| s.to_string()).collect()
}

#[test]
fn url_drops_leading_slashes() {
    assert_eq!(url("/rechtschreibung/Haus"), "https://www.duden.de/rechtschreibung/Haus");
    assert_eq!(url("//a"), "https://www.duden.de/a");
    assert_eq!(url("b/"), "https://www.duden.de/b/");
    assert_eq!(url(""), "https://www.duden.de/");
}

#[test]
fn search_url_of_term() {
    assert_eq!(search_url("Haus"), "https://www.duden.de/suchen/dudenonline/Haus");
}

#[test]
fn selection_reprompts_then_succeeds() {
    let lines = ["abc\n", "1\n"];
    let mut prompts = 0;
    let mut chosen = None;
    for line in lines {
        prompts += 1;
        match parse_selection(line, 2) {
            Selection::Chosen(i) => {
                chosen = Some(i);
                break;
            }
            Selection::NotANumber | Selection::OutOfRange(_) => continue,
        }
    }
    assert_eq!(chosen, Some(1));
    assert_eq!(prompts, 2);
}

#[test]
fn selection_outcomes() {
    assert_eq!(parse_selection("abc", 2), Selection::NotANumber);
    assert_eq!(parse_selection("", 2), Selection::NotANumber);
    assert_eq!(parse_selection("-1", 2), Selection::NotANumber);
    assert_eq!(parse_selection("+", 2), Selection::NotANumber);
    assert_eq!(parse_selection("99999999999999999999999", 2), Selection::NotANumber);
    assert_eq!(parse_selection(" 0 \n", 2), Selection::Chosen(0));
    assert_eq!(parse_selection("+1", 2), Selection::Chosen(1));
    assert_eq!(parse_selection("2", 2), Selection::OutOfRange(2));
    assert_eq!(parse_selection("5\n", 2), Selection::OutOfRange(5));
}

#[test]
fn item_from_source() {
    let src = ItemSource {
        word: Some(frags(&["Haus", "halt"])),
        source: Some("/rechtschreibung/Haus".to_string()),
        snippet: Some(frags(&["  Gebäude  ", "x"])),
    };
    let item = Item::from_source(&src).unwrap();
    assert_eq!(item.word, "Haus");
    assert_eq!(item.source, "/rechtschreibung/Haus");
    assert_eq!(item.snippet.as_deref(), Some("Gebäude"));

    let no_word = ItemSource { word: Some(Vec::new()), source: Some("x".to_string()), snippet: None };
    assert!(Item::from_source(&no_word).is_none());
    let no_link = ItemSource { word: Some(frags(&["a"])), source: None, snippet: None };
    assert!(Item::from_source(&no_link).is_none());
}

#[test]
fn candidate_lines() {
    let item = Item {
        word: "Bei\u{AD}spiel".to_string(),
        source: "/b".to_string(),
        snippet: Some("Substantiv".to_string()),
    };
    assert_eq!(candidate_line(3, &item), "[ 3] \x1b[1mBeispiel\x1b[m (Substantiv)");
    let bare = Item { word: "Haus".to_string(), source: "/h".to_string(), snippet: None };
    assert_eq!(candidate_line(12, &bare), "[12] \x1b[1mHaus\x1b[m");
}

#[test]
fn discover_candidates_on_page() {
    let page = Html::parse_document(
        r#"<html><body>
        <section class="vignette">
            <a class="vignette__label" href="/rechtschreibung/Haus"><strong>Haus</strong></a>
            <p class="vignette__snippet"> Gebäude </p>
        </section>
        <section class="vignette">
            <a class="vignette__label" href="/rechtschreibung/hausen"><strong>hau&shy;sen</strong></a>
        </section>
        </body></html>"#,
    );
    let queries = Queries::compile().unwrap();
    let items = Item::discover(&page, &queries).unwrap();
    assert_eq!(items.len(), 2);
    assert_eq!(items[0].word, "Haus");
    assert_eq!(items[0].source, "/rechtschreibung/Haus");
    assert_eq!(items[0].snippet.as_deref(), Some("Gebäude"));
    assert_eq!(items[1].snippet, None);
    assert_eq!(candidate_line(1, &items[1]), "[ 1] \x1b[1mhausen\x1b[m");
}

#[test]
fn discover_rejects_result_without_link() {
    let page = Html::parse_document(
        r#"<html><body><section class="vignette"><strong>Haus</strong></section></body></html>"#,
    );
    let queries = Queries::compile().unwrap();
    assert!(Item::discover(&page, &queries).is_none());
}
