use ndk_saf::entity::DocumentEntity;
use ndk_saf::entity::LocatorResolution;
use ndk_saf::entity::locator_resolution_route;
use ndk_saf::entity::resolve_from_foreign;
use ndk_saf::error::SafError;
use ndk_saf::listing::ListColumn;
use ndk_saf::listing::ListRow;
use ndk_saf::listing::assemble_listing;
use ndk_saf::listing::classify_directory;
use ndk_saf::listing::entity_from_row;
use ndk_saf::listing::list_projection;
use ndk_saf::text::str_eq;
use ndk_saf::text::str_is_prefix;
use ndk_saf::text::str_le;

const DIRECTORY_MIME: &str = "vnd.android.document/directory";

fn entity(name: &str, locator: &str, is_directory: bool) -> DocumentEntity<u64> {
    DocumentEntity {
        name: String::from(name),
        byte_size: 0,
        display_path: String::from("/display"),
        locator: String::from(locator),
        is_directory,
        foreign_ref: 7,
    }
}

fn row(name: &str, mime: &str, locator: &str, handle: Option<u64>) -> ListRow<u64> {
    ListRow {
        document_id: String::from(name),
        display_name: String::from(name),
        byte_size: 42,
        mime_type: String::from(mime),
        display_path: String::from("/tree/display"),
        locator: String::from(locator),
        foreign_ref: handle,
    }
}

#[test]
fn open_on_directory_is_not_applicable() {
    let dir = entity("docs", "R/docs", true);
    assert_eq!(dir.open_request("r"), Err(SafError::NotApplicable));
}

#[test]
fn open_on_file_carries_locator_and_mode() {
    let file = entity("a.txt", "R/a.txt", false);
    let request = file.open_request("wt").unwrap();
    assert_eq!(request.locator, "R/a.txt");
    assert_eq!(request.mode, "wt");
}

#[test]
fn list_on_file_is_not_applicable() {
    let file = entity("a.txt", "R/a.txt", false);
    assert_eq!(file.list_request(), Err(SafError::NotApplicable));
}

#[test]
fn list_on_directory_queries_its_locator() {
    let dir = entity("docs", "R/docs", true);
    let request = dir.list_request().unwrap();
    assert_eq!(request.parent_locator, "R/docs");
}

#[test]
fn create_file_on_file_is_not_applicable() {
    let file = entity("a.txt", "R/a.txt", false);
    assert_eq!(
        file.create_file_request("text/plain", "b.txt"),
        Err(SafError::NotApplicable)
    );
}

#[test]
fn create_file_carries_mime_and_name() {
    let dir = entity("docs", "R/docs", true);
    let request = dir.create_file_request("text/plain", "b.txt").unwrap();
    assert_eq!(request.parent_locator, "R/docs");
    assert_eq!(request.mime_type.as_deref(), Some("text/plain"));
    assert_eq!(request.name, "b.txt");
}

#[test]
fn create_directory_on_file_is_not_applicable() {
    let file = entity("a.txt", "R/a.txt", false);
    assert_eq!(file.create_directory_request("sub"), Err(SafError::NotApplicable));
}

#[test]
fn create_directory_carries_no_mime() {
    let dir = entity("docs", "R/docs", true);
    let request = dir.create_directory_request("sub").unwrap();
    assert_eq!(request.parent_locator, "R/docs");
    assert_eq!(request.mime_type, None);
    assert_eq!(request.name, "sub");
}

#[test]
fn resolve_from_foreign_rejects_null() {
    let resolved: Result<DocumentEntity<u64>, SafError> = resolve_from_foreign(None);
    assert_eq!(resolved, Err(SafError::InvalidArgument));
}

#[test]
fn resolve_from_foreign_keeps_the_read_fields() {
    let resolved = resolve_from_foreign(Some(entity("a.txt", "R/a.txt", false))).unwrap();
    assert_eq!(resolved.name, "a.txt");
    assert_eq!(resolved.locator, "R/a.txt");
    assert!(!resolved.is_directory);
}

#[test]
fn resolving_the_same_locator_twice_round_trips_name_and_kind() {
    // The provider reports the same metadata for one durable locator; both
    // resolutions wrap it unchanged.
    let first = resolve_from_foreign(Some(entity("docs", "R/docs", true))).unwrap();
    let again = resolve_from_foreign(Some(entity("docs", "R/docs", true))).unwrap();
    assert_eq!(first.name, again.name);
    assert_eq!(first.is_directory, again.is_directory);
}

#[test]
fn requested_root_uses_root_entity_directly() {
    assert_eq!(locator_resolution_route("R", "R"), LocatorResolution::UseRoot);
    assert_eq!(
        locator_resolution_route("R", "R/tree/primary"),
        LocatorResolution::UseRoot
    );
}

#[test]
fn requested_descendant_is_synthesized_without_listing() {
    assert_eq!(
        locator_resolution_route("R/D", "R"),
        LocatorResolution::SynthesizeDescendant
    );
}

#[test]
fn list_projection_has_the_four_columns_in_order() {
    let columns = list_projection();
    assert_eq!(
        columns,
        vec![
            ListColumn::DocumentId,
            ListColumn::DisplayName,
            ListColumn::ByteSize,
            ListColumn::MimeType,
        ]
    );
}

#[test]
fn directory_mime_classifies_directory() {
    assert!(classify_directory(DIRECTORY_MIME, DIRECTORY_MIME));
    assert!(!classify_directory("text/plain", DIRECTORY_MIME));
    assert!(!classify_directory("", DIRECTORY_MIME));
}

#[test]
fn row_classification_lands_in_the_entity() {
    let dir_entity = entity_from_row(row("docs", DIRECTORY_MIME, "R/docs", Some(1)), DIRECTORY_MIME);
    assert!(dir_entity.is_directory);
    let file_entity = entity_from_row(row("a.txt", "text/plain", "R/a.txt", Some(2)), DIRECTORY_MIME);
    assert!(!file_entity.is_directory);
}

#[test]
fn listing_sorts_children_by_name() {
    let rows = vec![
        row("b.txt", "text/plain", "R/b.txt", Some(1)),
        row("a.txt", "text/plain", "R/a.txt", Some(2)),
        row("c.txt", "text/plain", "R/c.txt", Some(3)),
    ];
    let entities = assemble_listing(Some(rows), DIRECTORY_MIME);
    let names: Vec<&str> = entities.iter().map(|e| e.name.as_str()).collect();
    assert_eq!(names, vec!["a.txt", "b.txt", "c.txt"]);
}

#[test]
fn listing_is_independent_of_enumeration_order() {
    let one_order = vec![
        row("b.txt", "text/plain", "R/b.txt", Some(1)),
        row("a.txt", "text/plain", "R/a.txt", Some(2)),
        row("c.txt", DIRECTORY_MIME, "R/c", Some(3)),
    ];
    let other_order = vec![
        row("c.txt", DIRECTORY_MIME, "R/c", Some(3)),
        row("a.txt", "text/plain", "R/a.txt", Some(2)),
        row("b.txt", "text/plain", "R/b.txt", Some(1)),
    ];
    let first = assemble_listing(Some(one_order), DIRECTORY_MIME);
    let second = assemble_listing(Some(other_order), DIRECTORY_MIME);
    assert_eq!(first, second);
}

#[test]
fn listing_keeps_each_row_field() {
    let rows = vec![row("a.txt", "text/plain", "R/a.txt", Some(9))];
    let entities = assemble_listing(Some(rows), DIRECTORY_MIME);
    assert_eq!(entities.len(), 1);
    assert_eq!(entities[0].name, "a.txt");
    assert_eq!(entities[0].byte_size, 42);
    assert_eq!(entities[0].display_path, "/tree/display");
    assert_eq!(entities[0].locator, "R/a.txt");
    assert!(!entities[0].is_directory);
    assert_eq!(entities[0].foreign_ref, 9);
}

#[test]
fn null_result_set_yields_empty_listing() {
    let entities: Vec<DocumentEntity<u64>> = assemble_listing(None, DIRECTORY_MIME);
    assert!(entities.is_empty());
}

#[test]
fn empty_result_set_yields_empty_listing() {
    let entities = assemble_listing(Some(Vec::<ListRow<u64>>::new()), DIRECTORY_MIME);
    assert!(entities.is_empty());
}

#[test]
fn rows_with_null_child_reference_are_dropped() {
    let rows = vec![
        row("a.txt", "text/plain", "R/a.txt", Some(1)),
        row("ghost", "text/plain", "R/ghost", None),
    ];
    let entities = assemble_listing(Some(rows), DIRECTORY_MIME);
    assert_eq!(entities.len(), 1);
    assert_eq!(entities[0].name, "a.txt");
}

#[test]
fn known_descendant_directory_lists_its_single_file() {
    // Root locator R holds the directory D; D holds f.txt. Resolving "R/D"
    // decides on direct synthesis, never on enumerating R's children.
    let route = locator_resolution_route("R/D", "R");
    assert_eq!(route, LocatorResolution::SynthesizeDescendant);
    let d = entity("D", "R/D", true);
    let request = d.list_request().unwrap();
    assert_eq!(request.parent_locator, "R/D");
    let rows = vec![row("f.txt", "text/plain", "R/D/f.txt", Some(4))];
    let entities = assemble_listing(Some(rows), DIRECTORY_MIME);
    assert_eq!(entities.len(), 1);
    assert_eq!(entities[0].name, "f.txt");
    assert!(!entities[0].is_directory);
}

#[test]
fn string_order_helpers_behave_lexicographically() {
    assert!(str_le("a.txt", "b.txt"));
    assert!(!str_le("b.txt", "a.txt"));
    assert!(str_le("abc", "abc"));
    assert!(str_le("ab", "abc"));
    assert!(!str_le("abc", "ab"));
    assert!(str_le("", "a"));
    assert!(str_eq("same", "same"));
    assert!(!str_eq("same", "same "));
    assert!(str_is_prefix("R", "R/tree"));
    assert!(str_is_prefix("", "R"));
    assert!(!str_is_prefix("R/D", "R"));
}
