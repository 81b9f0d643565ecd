use control_sync::container::{spacing, Container, Orientation, Packing, WidgetKind};

#[test]
fn spacing_depends_on_orientation() {
    assert_eq!(spacing(Orientation::Horizontal), 30);
    assert_eq!(spacing(Orientation::Vertical), 0);
}

#[test]
fn first_draw_populates_in_order() {
    let declared = vec![WidgetKind::Label, WidgetKind::Scale, WidgetKind::Button];
    let mut container = Container::new();
    assert_eq!(container.len(), 0);
    assert!(container.populate(&declared));
    assert_eq!(container.len(), 3);
    assert_eq!(container.child(0), Some(WidgetKind::Label));
    assert_eq!(container.child(1), Some(WidgetKind::Scale));
    assert_eq!(container.child(2), Some(WidgetKind::Button));
    assert_eq!(container.child(3), None);
}

#[test]
fn second_draw_adds_no_duplicates() {
    let declared = vec![WidgetKind::CheckBox, WidgetKind::ComboBox];
    let mut container = Container::new();
    assert!(container.populate(&declared));
    assert!(!container.populate(&declared));
    assert_eq!(container.len(), 2);
    assert_eq!(container.child(0), Some(WidgetKind::CheckBox));
    assert_eq!(container.child(1), Some(WidgetKind::ComboBox));
}

#[test]
fn populated_container_ignores_other_declarations() {
    let mut container = Container::new();
    container.populate(&vec![WidgetKind::Image]);
    assert!(!container.populate(&vec![WidgetKind::Button, WidgetKind::Button]));
    assert_eq!(container.len(), 1);
    assert_eq!(container.child(0), Some(WidgetKind::Image));
}

#[test]
fn empty_declaration_leaves_container_empty() {
    let mut container = Container::new();
    assert!(container.populate(&Vec::new()));
    assert!(container.populate(&Vec::new()));
    assert_eq!(container.len(), 0);
    assert_eq!(container.first_packing(), None);
}

#[test]
fn leading_label_expands() {
    let mut container = Container::new();
    container.populate(&vec![WidgetKind::Label, WidgetKind::Scale]);
    assert_eq!(
        container.first_packing(),
        Some(Packing { expand: true, fill: true, padding: 12 })
    );
}

#[test]
fn other_first_child_is_not_repacked() {
    let mut container = Container::new();
    container.populate(&vec![WidgetKind::Scale, WidgetKind::Label]);
    assert_eq!(container.first_packing(), None);
}

#[test]
fn container_with_children_is_not_filled_again() {
    let mut container = Container::holding(vec![WidgetKind::Button]);
    assert_eq!(container.len(), 1);
    assert!(!container.populate(&vec![WidgetKind::Label, WidgetKind::Scale]));
    assert_eq!(container.len(), 1);
    assert_eq!(container.child(0), Some(WidgetKind::Button));

    let mut emptied = Container::holding(Vec::new());
    assert!(emptied.populate(&vec![WidgetKind::Label]));
    assert_eq!(emptied.child(0), Some(WidgetKind::Label));
}
