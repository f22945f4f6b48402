use fs_panel::command::{CmdResult, HDir, Internal};
use fs_panel::layout::plan;
use fs_panel::mount::{MatchInfo, Mount, Stats, StateError, SelectionType, TreeOptions};
use fs_panel::render::is_thumb;
use fs_panel::scroll::ScrollCommand;
use fs_panel::state::FilesystemState;

fn chars(s: &str) -> Vec<char> {
    s.chars().collect()
}

fn text(cells: &[fs_panel::render::Cell]) -> String {
    cells.iter().flat_map(|c| c.chars.iter()).collect()
}

fn mount(id: u64, dev: u64, fs: &str, fs_type: &str, mp: &str, stats: Option<(u64, u64, u64)>) -> Mount {
    Mount {
        id,
        dev,
        fs: chars(fs),
        fs_type: chars(fs_type),
        mount_point: chars(mp),
        disk: None,
        stats: stats.map(|(size, used, available)| Stats { size, used, available }),
    }
}

fn two_mounts() -> Vec<Mount> {
    vec![
        mount(1, 10, "/dev/sda1", "ext4", "/", Some((12345, 2345, 10000))),
        mount(2, 20, "/dev/sdb1", "xfs", "/data", Some((1000, 250, 750))),
    ]
}

fn no_match() -> MatchInfo {
    MatchInfo { fs: false, disk: false, fs_type: false, mount_point: false }
}

#[test]
fn scroll_clamps_into_range() {
    // resulting scroll always lies in [0, max(0, count - page_height)]
    assert_eq!(ScrollCommand::Lines(5).apply(0, 10, 4), 5);
    assert_eq!(ScrollCommand::Lines(100).apply(0, 10, 4), 6);
    assert_eq!(ScrollCommand::Lines(-3).apply(2, 10, 4), 0);
    assert_eq!(ScrollCommand::Pages(1).apply(0, 10, 4), 4);
    assert_eq!(ScrollCommand::Pages(-1).apply(5, 10, 4), 1);
    assert_eq!(ScrollCommand::Absolute(100).apply(0, 10, 4), 6);
    assert_eq!(ScrollCommand::Lines(7).apply(0, 3, 4), 0);
}

#[test]
fn new_keeps_usable_mounts_and_selects_device() {
    let mut mounts = two_mounts();
    mounts.push(mount(3, 30, "proc", "proc", "/proc", None));
    let s = FilesystemState::new(&mounts, false, 20, TreeOptions { show_root_fs: false })
        .unwrap();
    // the mount without statistics is excluded, the one on device 20 selected
    assert_eq!(s.count(), 2);
    assert_eq!(s.selection_idx, 1);
    assert_eq!(s.scroll, 0);
    let path: String = s.selected_path().iter().collect();
    assert_eq!(path, "/data");
}

#[test]
fn new_unknown_device_selects_first() {
    let s = FilesystemState::new(&two_mounts(), false, 99, TreeOptions { show_root_fs: false })
        .unwrap();
    assert_eq!(s.selection_idx, 0);
}

#[test]
fn new_without_usable_mount_fails() {
    let mounts = vec![mount(3, 30, "proc", "proc", "/proc", None)];
    let r = FilesystemState::new(&mounts, false, 30, TreeOptions { show_root_fs: false });
    match r {
        Err(e) => assert_eq!(e, StateError::NoMounts),
        Ok(_) => panic!("construction must fail without a usable mount"),
    }
}

#[test]
fn new_disks_only_keeps_disks() {
    let mut with_disk = mount(1, 10, "/dev/sda1", "ext4", "/", None);
    with_disk.disk = Some(chars("SSD"));
    let mounts = vec![with_disk, mount(2, 20, "/dev/sdb1", "xfs", "/data", Some((8, 4, 4)))];
    let s = FilesystemState::new(&mounts, true, 10, TreeOptions { show_root_fs: false }).unwrap();
    assert_eq!(s.count(), 1);
}

#[test]
fn filter_keeps_matches_in_order() {
    // pattern "xfs" matches only the second mount; its overlay position is 0
    let mut s = FilesystemState::new(&two_mounts(), false, 10, TreeOptions { show_root_fs: false })
        .unwrap();
    let verdicts = vec![
        no_match(),
        MatchInfo { fs: false, disk: false, fs_type: true, mount_point: false },
    ];
    s.on_pattern(Some(chars("xfs")), &verdicts);
    let f = s.filtered.as_ref().unwrap();
    assert_eq!(f.mounts.len(), 1);
    assert_eq!(f.mounts[0].id, 2);
    assert_eq!(f.selection_idx, 0);
    assert_eq!(s.count(), 1);
}

#[test]
fn filter_ignores_disk_verdict_without_disk() {
    // the disk verdict counts only when a disk descriptor is present
    let mut s = FilesystemState::new(&two_mounts(), false, 10, TreeOptions { show_root_fs: false })
        .unwrap();
    let verdicts = vec![
        MatchInfo { fs: false, disk: true, fs_type: false, mount_point: false },
        no_match(),
    ];
    s.on_pattern(Some(chars("ssd")), &verdicts);
    assert_eq!(s.filtered.as_ref().unwrap().mounts.len(), 0);
    assert_eq!(s.filtered.as_ref().unwrap().selection_idx, 0);
}

#[test]
fn carry_over_takes_last_match_at_or_before_selection() {
    // master selection 1, both mounts match: the overlay selects position 1
    let mut s = FilesystemState::new(&two_mounts(), false, 20, TreeOptions { show_root_fs: false })
        .unwrap();
    assert_eq!(s.selection_idx, 1);
    let both = MatchInfo { fs: true, disk: false, fs_type: false, mount_point: false };
    s.on_pattern(Some(chars("dev")), &vec![both, both]);
    assert_eq!(s.filtered.as_ref().unwrap().selection_idx, 1);
}

#[test]
fn carry_over_defaults_to_first_match() {
    // no match at or before the master selection: the overlay selects 0
    let mounts = vec![
        mount(1, 10, "a", "ext4", "/a", Some((8, 4, 4))),
        mount(2, 20, "b", "ext4", "/b", Some((8, 4, 4))),
        mount(3, 30, "c", "xfs", "/c", Some((8, 4, 4))),
    ];
    let mut s = FilesystemState::new(&mounts, false, 20, TreeOptions { show_root_fs: false })
        .unwrap();
    assert_eq!(s.selection_idx, 1);
    let m = MatchInfo { fs: false, disk: false, fs_type: true, mount_point: false };
    s.on_pattern(Some(chars("xfs")), &vec![no_match(), no_match(), m]);
    assert_eq!(s.filtered.as_ref().unwrap().selection_idx, 0);
    assert_eq!(s.filtered.as_ref().unwrap().mounts[0].id, 3);
}

#[test]
fn clearing_restores_master_state() {
    // filter, navigate in the overlay, clear: the master state is untouched
    let mut s = FilesystemState::new(&two_mounts(), false, 10, TreeOptions { show_root_fs: false })
        .unwrap();
    assert_eq!(s.selection_idx, 0);
    let both = MatchInfo { fs: true, disk: false, fs_type: false, mount_point: false };
    s.on_pattern(Some(chars("dev")), &vec![both, both]);
    s.on_internal(Internal::LineDown, None, false, true, true);
    assert_eq!(s.selection_idx, 0, "navigation during filtering must not touch the master");
    s.on_pattern(None, &Vec::<MatchInfo>::new());
    assert!(s.filtered.is_none());
    assert_eq!(s.selection_idx, 0);
    assert_eq!(s.count(), 2);
}

#[test]
fn back_restores_selection_by_identity() {
    // leave filtering on the overlay's selected mount: the master selection
    // moves to that mount's master index
    let mut s = FilesystemState::new(&two_mounts(), false, 10, TreeOptions { show_root_fs: false })
        .unwrap();
    let m = MatchInfo { fs: false, disk: false, fs_type: true, mount_point: false };
    s.on_pattern(Some(chars("xfs")), &vec![no_match(), m]);
    let r = s.on_internal(Internal::Back, None, false, true, true);
    assert!(matches!(r, CmdResult::Keep));
    assert!(s.filtered.is_none());
    assert_eq!(s.selection_idx, 1);
}

#[test]
fn back_without_overlay_pops() {
    let mut s = FilesystemState::new(&two_mounts(), false, 10, TreeOptions { show_root_fs: false })
        .unwrap();
    let r = s.on_internal(Internal::Back, None, false, true, true);
    assert!(matches!(r, CmdResult::PopState));
}

#[test]
fn line_moves_clamp_at_bounds() {
    let mut s = FilesystemState::new(&two_mounts(), false, 10, TreeOptions { show_root_fs: false })
        .unwrap();
    s.on_internal(Internal::LineUp, None, false, true, true);
    assert_eq!(s.selection_idx, 0);
    s.on_internal(Internal::LineDown, None, false, true, true);
    assert_eq!(s.selection_idx, 1);
    s.on_internal(Internal::LineDown, None, false, true, true);
    assert_eq!(s.selection_idx, 1);
    s.on_internal(Internal::LineUp, None, false, true, true);
    assert_eq!(s.selection_idx, 0);
}

#[test]
fn open_stay_requests_browser_on_selected_path() {
    let mut s = FilesystemState::new(&two_mounts(), false, 20, TreeOptions { show_root_fs: false })
        .unwrap();
    let r = s.on_internal(Internal::OpenStay, Some(true), false, true, true);
    match r {
        CmdResult::OpenBrowser { path, options, in_new_panel } => {
            let p: String = path.iter().collect();
            assert_eq!(p, "/data");
            assert!(options.show_root_fs);
            assert!(in_new_panel, "the invocation bang overrides the execution bang");
        },
        _ => panic!("expected a browser request"),
    }
}

#[test]
fn panel_commands_create_or_focus() {
    let mut s = FilesystemState::new(&two_mounts(), false, 10, TreeOptions { show_root_fs: false })
        .unwrap();
    let r = s.on_internal(Internal::PanelLeft, None, false, true, true);
    assert!(matches!(r, CmdResult::NewPanelOnPath { side: HDir::Left, .. }));
    let r = s.on_internal(Internal::PanelLeft, None, false, false, true);
    assert!(matches!(r, CmdResult::HandleInApp(HDir::Left)));
    let r = s.on_internal(Internal::PanelRight, None, false, true, false);
    assert!(matches!(r, CmdResult::HandleInApp(HDir::Right)));
    let r = s.on_internal(Internal::OpenLeave, None, false, true, true);
    assert!(matches!(r, CmdResult::PopStateAndReapply));
    let r = s.on_internal(Internal::Other, None, false, true, true);
    assert!(matches!(r, CmdResult::Generic));
}

#[test]
fn page_moves_scroll_by_page() {
    let mounts: Vec<Mount> = (0..5)
        .map(|i| mount(i + 1, (i + 1) * 10, "fs", "ext4", "/m", Some((8, 4, 4))))
        .collect();
    let mut s = FilesystemState::new(&mounts, false, 10, TreeOptions { show_root_fs: false })
        .unwrap();
    s.render(40, 4, false);
    let r = s.on_internal(Internal::PageDown, None, false, true, true);
    assert!(matches!(r, CmdResult::Keep));
    assert_eq!(s.scroll, 1, "count 5 less page height 4 caps the scroll at 1");
    s.on_internal(Internal::PageDown, None, false, true, true);
    assert_eq!(s.scroll, 1);
    s.on_internal(Internal::PageUp, None, false, true, true);
    assert_eq!(s.scroll, 0);
}

#[test]
fn click_selects_master_row_even_while_filtering() {
    let mut s = FilesystemState::new(&two_mounts(), false, 20, TreeOptions { show_root_fs: false })
        .unwrap();
    assert_eq!(s.selection_idx, 1);
    let m = MatchInfo { fs: false, disk: false, fs_type: true, mount_point: false };
    s.on_pattern(Some(chars("xfs")), &vec![no_match(), m]);
    s.on_click(0, 2);
    assert_eq!(s.selection_idx, 0, "the click path addresses the master list");
    assert!(s.filtered.is_some());
    // clicks above the data band or past the data are ignored
    s.on_click(0, 1);
    assert_eq!(s.selection_idx, 0);
    s.on_click(0, 9);
    assert_eq!(s.selection_idx, 0);
}

#[test]
fn selection_reports_a_directory() {
    let s = FilesystemState::new(&two_mounts(), false, 10, TreeOptions { show_root_fs: false })
        .unwrap();
    let sel = s.selection();
    let p: String = sel.path.iter().collect();
    assert_eq!(p, "/");
    assert_eq!(sel.stype, SelectionType::Directory);
    assert!(!sel.is_exe);
    assert_eq!(sel.line, 0);
}

#[test]
fn options_pass_through() {
    let mut s = FilesystemState::new(&two_mounts(), false, 10, TreeOptions { show_root_fs: false })
        .unwrap();
    assert!(!s.tree_options().show_root_fs);
    s.with_new_options(|o: TreeOptions| TreeOptions { show_root_fs: !o.show_root_fs });
    assert!(s.tree_options().show_root_fs);
    s.refresh();
    assert!(s.tree_options().show_root_fs);
}

#[test]
fn narrow_width_keeps_only_mandatory_columns() {
    // mandatory width here: 10 + 1 + 4 + 1 + 4 + 1 + 11 = 32
    let lay = plan(33, 10, 4, 11);
    assert!(!lay.e_use && !lay.e_use_share && !lay.e_dsk && !lay.e_use_bar && !lay.e_type);
    assert_eq!(lay.w_use_bar, 1);
}

#[test]
fn generous_width_enables_all_columns_and_grows_the_bar() {
    let lay = plan(70, 10, 4, 11);
    assert!(lay.e_use && lay.e_use_share && lay.e_dsk && lay.e_use_bar && lay.e_type);
    assert_eq!(lay.w_use_bar, 1 + 9, "the bar grows by at most nine characters");
    assert_eq!(lay.wc_use, 4 + 4 + 2 + 9);
}

#[test]
fn layout_priority_is_greedy() {
    // one character short of the usage column: the leftover still admits
    // the narrower disk column
    let lay = plan(37, 10, 4, 11);
    assert!(!lay.e_use && lay.e_dsk);
    // one more character enables the usage column, whose cost then evicts
    // the disk column: below the saturation width the scan is not monotone
    let lay = plan(38, 10, 4, 11);
    assert!(lay.e_use && !lay.e_use_share && !lay.e_dsk);
}

#[test]
fn layout_is_monotone_beyond_saturation() {
    // past mandatory + 14 (here 46), growing the width never drops a column
    for w in 46..80usize {
        let a = plan(w, 10, 4, 11);
        let b = plan(w + 1, 10, 4, 11);
        assert!(!a.e_use || b.e_use, "width {w}");
        assert!(!a.e_use_share || b.e_use_share, "width {w}");
        assert!(!a.e_dsk || b.e_dsk, "width {w}");
        assert!(!a.e_use_bar || b.e_use_bar, "width {w}");
        assert!(!a.e_type || b.e_type, "width {w}");
    }
}

#[test]
fn wide_render_shows_disk_type_and_share_cells() {
    let mut mounts = two_mounts();
    mounts[0].disk = Some("SSD".chars().collect());
    let mut s = FilesystemState::new(&mounts, false, 10, TreeOptions { show_root_fs: false })
        .unwrap();
    let plan = s.render(70, 6, true);
    assert!(plan.layout.e_dsk && plan.layout.e_type && plan.layout.e_use_share);
    let row0 = text(&plan.rows[0].cells);
    // marker, fs, disk type, filesystem type, size, then the usage group
    assert!(row0.starts_with("\u{25b6}/dev/sda1 │SSD│ext4│ 12K│2345"), "unexpected row: {row0:?}");
    // 2345 of 12345 used: 189 permille, rounded to 19%
    assert!(row0.contains(" 19%│ 10K│/"), "unexpected row: {row0:?}");
    let row1 = text(&plan.rows[1].cells);
    assert!(row1.starts_with(" /dev/sdb1 │   │xfs "), "unexpected row: {row1:?}");
}

#[test]
fn render_rows_are_exactly_area_wide() {
    let mut s = FilesystemState::new(&two_mounts(), false, 10, TreeOptions { show_root_fs: false })
        .unwrap();
    let plan = s.render(40, 6, false);
    assert_eq!(text(&plan.header).chars().count(), 40);
    assert_eq!(text(&plan.separator).chars().count(), 40);
    assert_eq!(plan.rows.len(), 4);
    for row in &plan.rows {
        assert_eq!(text(&row.cells).chars().count(), 39, "one column is the scrollbar's");
    }
    assert_eq!(s.page_height, 6);
}

#[test]
fn render_writes_sizes_and_texts() {
    let mut s = FilesystemState::new(&two_mounts(), false, 10, TreeOptions { show_root_fs: false })
        .unwrap();
    let plan = s.render(40, 6, false);
    // 40 wide: mandatory 32, then the usage column and a one-character bar
    assert!(plan.layout.e_use && plan.layout.e_use_bar && !plan.layout.e_use_share);
    let row0 = text(&plan.rows[0].cells);
    assert!(row0.starts_with("/dev/sda1 │ 12K│2345  │ 10K│/"), "unexpected row: {row0:?}");
    assert!(plan.rows[0].selected);
    assert!(!plan.rows[1].selected);
    let row2 = text(&plan.rows[2].cells);
    assert_eq!(row2.trim(), "", "rows beyond the data render blank");
}

#[test]
fn render_marks_the_scrollbar_thumb() {
    let mounts: Vec<Mount> = (0..5)
        .map(|i| mount(i + 1, (i + 1) * 10, "fs", "ext4", "/m", Some((8, 4, 4))))
        .collect();
    let mut s = FilesystemState::new(&mounts, false, 10, TreeOptions { show_root_fs: false })
        .unwrap();
    s.render(40, 4, false);
    s.try_scroll(ScrollCommand::Lines(1));
    assert_eq!(s.scroll, 1);
    let plan = s.render(40, 4, false);
    // five rows of content in a height of four: a thumb exists
    assert!(plan.rows.iter().any(|r| r.thumb));
    assert!(is_thumb(2, Some((1, 4))));
    assert!(!is_thumb(5, Some((1, 4))));
    assert!(!is_thumb(2, None));
}

#[test]
fn try_scroll_reports_change() {
    let mounts: Vec<Mount> = (0..5)
        .map(|i| mount(i + 1, (i + 1) * 10, "fs", "ext4", "/m", Some((8, 4, 4))))
        .collect();
    let mut s = FilesystemState::new(&mounts, false, 10, TreeOptions { show_root_fs: false })
        .unwrap();
    s.render(40, 4, false);
    assert!(s.try_scroll(ScrollCommand::Lines(1)));
    assert!(!s.try_scroll(ScrollCommand::Lines(5)), "already at the clamp");
}
