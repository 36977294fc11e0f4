use azure_sdk_for_rust::continuation::{ContinuationEngine, PageResult, Phase, Step};
use azure_sdk_for_rust::errors::{AzureError, TraversingError};
use azure_sdk_for_rust::traversal::traverse_single;

/// Drives an engine to the end, or until `wanted` items were taken, answering
/// each fetch with the next scripted page. Returns the items and the tokens of
/// the fetches.
fn drive(
    script: Vec<Result<PageResult<&'static str>, AzureError>>,
    wanted: usize,
) -> (Vec<&'static str>, Vec<Option<String>>, Option<AzureError>) {
    let mut engine = ContinuationEngine::new();
    let mut pages = script.into_iter();
    let mut items = Vec::new();
    let mut fetches = Vec::new();
    while items.len() < wanted {
        match engine.next() {
            Step::Yield(x) => items.push(x),
            Step::Fetch(token) => {
                fetches.push(token);
                let page = pages.next().expect("more fetches than scripted pages");
                if let Err(e) = engine.deliver(page) {
                    return (items, fetches, Some(e));
                }
            }
            Step::End => break,
        }
    }
    (items, fetches, None)
}

fn page(items: Vec<&'static str>, token: Option<&str>) -> Result<PageResult<&'static str>, AzureError> {
    Ok(PageResult { items, continuation: token.map(|t| t.to_string()) })
}

#[test]
fn three_pages_yield_all_items_with_three_fetches() {
    let script = vec![page(vec!["a", "b"], Some("T1")), page(vec!["c"], Some("T1")), page(vec![], None)];
    let (items, fetches, error) = drive(script, usize::MAX);
    assert_eq!(items, vec!["a", "b", "c"]);
    assert_eq!(fetches, vec![None, Some("T1".to_string()), Some("T1".to_string())]);
    assert!(error.is_none());
}

#[test]
fn taking_one_item_fetches_one_page() {
    let script = vec![page(vec!["a", "b"], Some("T1")), page(vec!["c"], None)];
    let (items, fetches, _) = drive(script, 1);
    assert_eq!(items, vec!["a"]);
    assert_eq!(fetches, vec![None]);
}

#[test]
fn ended_sequence_stays_ended() {
    let mut engine = ContinuationEngine::<u32>::new();
    assert_eq!(engine.phase(), Phase::Fresh);
    assert!(matches!(engine.next(), Step::Fetch(None)));
    assert_eq!(engine.phase(), Phase::Awaiting);
    assert!(engine.deliver(Ok(PageResult { items: vec![7], continuation: None })).is_ok());
    assert!(matches!(engine.next(), Step::Yield(7)));
    assert!(matches!(engine.next(), Step::End));
    assert_eq!(engine.phase(), Phase::Exhausted);
    assert!(matches!(engine.next(), Step::End));
}

#[test]
fn fetch_error_ends_sequence_after_earlier_items() {
    let script = vec![
        page(vec!["a"], Some("T1")),
        Err(AzureError::GenericErrorWithText("throttled".to_string())),
    ];
    let (items, fetches, error) = drive(script, usize::MAX);
    assert_eq!(items, vec!["a"]);
    assert_eq!(fetches, vec![None, Some("T1".to_string())]);
    match error {
        Some(AzureError::GenericErrorWithText(msg)) => assert_eq!(msg, "throttled"),
        other => panic!("unexpected outcome {:?}", other),
    }
}

#[test]
fn empty_pages_with_tokens_keep_fetching() {
    let script = vec![page(vec![], Some("A")), page(vec![], Some("B")), page(vec!["z"], None)];
    let (items, fetches, _) = drive(script, usize::MAX);
    assert_eq!(items, vec!["z"]);
    assert_eq!(fetches, vec![None, Some("A".to_string()), Some("B".to_string())]);
}

#[test]
fn missing_node_is_path_not_found() {
    let r = traverse_single::<u8>("EnumerationResults/Blobs", vec![]);
    match r {
        Err(TraversingError::PathNotFound(p)) => assert_eq!(p, "EnumerationResults/Blobs"),
        other => panic!("unexpected outcome {:?}", other),
    }
}

#[test]
fn two_nodes_is_multiple_node() {
    let r = traverse_single("Name", vec!["first", "second"]);
    match r {
        Err(TraversingError::MultipleNode(p)) => assert_eq!(p, "Name"),
        other => panic!("unexpected outcome {:?}", other),
    }
}

#[test]
fn one_node_is_selected() {
    let r = traverse_single("Name", vec!["only"]);
    assert_eq!(r.unwrap(), "only");
}
