use rika_firenet_client::summary::{extract_stove_ids, stove_ids_from_links};

const PARTIAL_SUMMARY_EXAMPLE: &str = r#"
    <div role="main" class="ui-content">
        <div data-role="controlgroup">
            <h3>You have access to the following stoves</h3>
            <ul id="stoveList" data-role="listview" data-inset="true" data-theme="a" data-split-theme="a"
                data-split-icon="fa-pencil">
                <li class="ui-li-has-alt ui-first-child">
                    <a href="/web/stove/12345" data-ajax="false" class="ui-btn ui-first-child">Stove n°12345</a>
                    <a href="/web/edit/12345" data-ajax="false" class="ui-btn ui-btn-icon-notext ui-icon-fa-pencil ui-btn-a ui-last-child" title=""></a>
                </li>
                <li class="ui-li-has-alt ui-last-child">
                    <a href="/web/stove/333444" data-ajax="false" class="ui-btn ui-first-child">Stove n°333444</a>
                    <a href="/web/edit/333444" data-ajax="false" class="ui-btn ui-btn-icon-notext ui-icon-fa-pencil ui-btn-a ui-last-child" title=""></a>
                </li>
            </ul>
        </div>
    </div>
    "#;

#[test]
fn can_extract_stove_ids() {
    let actual = extract_stove_ids(&PARTIAL_SUMMARY_EXAMPLE.to_string());
    let expected = vec!["12345".to_string(), "333444".to_string()];
    assert_eq!(actual, expected)
}

#[test]
fn page_without_stove_list_has_no_ids() {
    assert!(extract_stove_ids("").is_empty());
    assert!(extract_stove_ids("<p><a href=\"/web/stove/1\">elsewhere</a></p>").is_empty());
}

#[test]
fn links_elsewhere_or_without_target_are_passed_over() {
    let links = vec![
        Some("/web/stove/7".to_string()),
        None,
        Some("/web/edit/7".to_string()),
        Some("/web/stove/".to_string()),
        Some("/web/stove/8".to_string()),
    ];
    assert_eq!(stove_ids_from_links(&links), vec!["7", "", "8"]);
}
