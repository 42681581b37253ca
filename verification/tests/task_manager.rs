use orbutils::geometry::Rect;
use orbutils::layout::Label;
use orbutils::process_info::get_processes;
use orbutils::task_manager::{TaskManager, TaskManagerCommand};

const LIST: &str = "titles\n\
1 0 0 0 1 0 0 1 R 3 1 MB init\n\
2 1 0 0 1 0 0 1 B 0 512 KB\n";

fn label(label: &Label) -> (i32, i32, u32, u32, &str) {
    (label.rect.x, label.rect.y, label.rect.width, label.rect.height, label.text.as_str())
}

#[test]
fn new_manager_has_no_process() {
    let manager = TaskManager::new(800, 600);
    assert_eq!(manager.window_width(), 640);
    assert_eq!(manager.window_height(), 480);
    assert_eq!(manager.processes().len(), 0);
    assert!(manager.can_lay_out());
}

#[test]
fn resize_changes_the_size_only() {
    let mut manager = TaskManager::new(800, 600);
    manager.apply(TaskManagerCommand::Update(get_processes(LIST)));
    manager.apply(TaskManagerCommand::Resize(300, 200));
    assert_eq!(manager.window_width(), 300);
    assert_eq!(manager.window_height(), 200);
    assert_eq!(manager.processes().len(), 2);
}

#[test]
fn update_changes_the_list_only() {
    let mut manager = TaskManager::new(1920, 1080);
    manager.apply(TaskManagerCommand::Update(get_processes(LIST)));
    assert_eq!(manager.processes().len(), 2);
    assert_eq!(manager.processes()[1].pid, "2");
    assert_eq!(manager.window_width(), 1024);
    assert_eq!(manager.window_height(), 768);
    manager.apply(TaskManagerCommand::Update(Vec::new()));
    assert_eq!(manager.processes().len(), 0);
}

#[test]
fn manager_columns_follow_the_window() {
    let mut manager = TaskManager::new(800, 600);
    let columns = manager.resized_columns();
    assert_eq!((columns[0].name, columns[0].x, columns[0].width), ("Name", 0, 442));
    assert_eq!((columns[1].name, columns[1].x, columns[1].width), ("PID", 442, 48));
    assert_eq!((columns[2].name, columns[2].x, columns[2].width), ("Program Usage", 490, 150));
    manager.apply(TaskManagerCommand::Resize(150, 100));
    let columns = manager.resized_columns();
    assert_eq!((columns[0].x, columns[0].width), (0, 0));
    assert_eq!((columns[1].x, columns[1].width), (0, 48));
    assert_eq!((columns[2].x, columns[2].width), (48, 150));
}

#[test]
fn headers_sit_on_their_columns() {
    let manager = TaskManager::new(800, 600);
    let headers = manager.header_layout();
    assert_eq!(headers.len(), 3);
    assert_eq!(label(&headers[0]), (0, 0, 442, 32, "Name"));
    assert_eq!(label(&headers[1]), (442, 0, 48, 32, "PID"));
    assert_eq!(label(&headers[2]), (490, 0, 150, 32, "Program Usage"));
}

#[test]
fn list_has_a_row_for_each_process() {
    let mut manager = TaskManager::new(800, 600);
    manager.apply(TaskManagerCommand::Update(get_processes(LIST)));
    let list = manager.list_layout();
    assert_eq!(list.rect, Rect { x: 0, y: 32, width: 640, height: 448 });
    assert_eq!(list.rows.len(), 2);
    assert_eq!(label(&list.rows[0].name), (0, 0, 640, 16, "init"));
    assert_eq!(label(&list.rows[0].pid), (442, 0, 640, 16, "1"));
    assert_eq!(label(&list.rows[0].mem), (490, 0, 640, 16, "1 MB"));
    assert_eq!(label(&list.rows[1].name), (0, 0, 640, 16, "N/A"));
    assert_eq!(label(&list.rows[1].pid), (442, 0, 640, 16, "2"));
    assert_eq!(label(&list.rows[1].mem), (490, 0, 640, 16, "512 KB"));
}

#[test]
fn list_in_a_narrow_window() {
    let mut manager = TaskManager::new(800, 600);
    manager.apply(TaskManagerCommand::Resize(100, 32));
    assert!(manager.can_lay_out());
    let list = manager.list_layout();
    assert_eq!(list.rect, Rect { x: 0, y: 32, width: 198, height: 0 });
    assert_eq!(list.rows.len(), 0);
}

#[test]
fn window_that_cannot_be_laid_out() {
    let mut manager = TaskManager::new(800, 600);
    manager.apply(TaskManagerCommand::Resize(100, 31));
    assert!(!manager.can_lay_out());
    manager.apply(TaskManagerCommand::Resize(2_147_483_648, 100));
    assert!(!manager.can_lay_out());
    manager.apply(TaskManagerCommand::Resize(2_147_483_647, 32));
    assert!(manager.can_lay_out());
}
