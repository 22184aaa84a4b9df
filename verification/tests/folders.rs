use sync_edit::folders::{
    collect_files, fids_folder_full_path, fids_folder_get_leaf, fids_folder_get_subfolder, FidFile, FidTree,
    FidsFolder,
};

fn folder(parent: Option<usize>, name: &str, trees: Vec<usize>, leaves: Vec<usize>) -> FidsFolder {
    FidsFolder { parent_folder: parent, leaves, trees, name: name.as_bytes().to_vec() }
}

fn file(parent: usize, name: &str) -> FidFile {
    FidFile { parent_folder: parent, name: name.as_bytes().to_vec() }
}

/// GameData / { Stadium / { GameCtnBlockInfo / {a, b}, Items / {c} , d}, Stadium (a second one) }
fn tree() -> FidTree {
    FidTree {
        folders: vec![
            folder(None, "GameData", vec![1, 4], vec![]),
            folder(Some(0), "Stadium", vec![2, 3], vec![3]),
            folder(Some(1), "GameCtnBlockInfo", vec![], vec![0, 1]),
            folder(Some(1), "Items", vec![], vec![2]),
            folder(Some(0), "Stadium", vec![], vec![4]),
        ],
        files: vec![file(2, "a"), file(2, "b"), file(3, "c"), file(1, "d"), file(4, "e")],
    }
}

#[test]
fn full_path_lists_names_from_the_root() {
    let t = tree();
    let path = fids_folder_full_path(&t, 3);
    assert_eq!(path, vec![b"GameData".to_vec(), b"Stadium".to_vec(), b"Items".to_vec()]);
    assert_eq!(fids_folder_full_path(&t, 0), vec![b"GameData".to_vec()]);
}

#[test]
fn subfolder_by_name_takes_the_first() {
    let t = tree();
    assert_eq!(fids_folder_get_subfolder(&t, 0, "Stadium"), Some(1));
    assert_eq!(fids_folder_get_subfolder(&t, 1, "Items"), Some(3));
    assert_eq!(fids_folder_get_subfolder(&t, 1, "Stadium"), None);
    assert_eq!(fids_folder_get_subfolder(&t, 2, "x"), None);
}

#[test]
fn leaf_by_name() {
    let t = tree();
    assert_eq!(fids_folder_get_leaf(&t, 2, b"b"), Some(1));
    assert_eq!(fids_folder_get_leaf(&t, 2, b"c"), None);
}

#[test]
fn files_load_subfolders_first() {
    let t = tree();
    assert_eq!(collect_files(&t, 1), vec![0, 1, 2, 3]);
    assert_eq!(collect_files(&t, 0), vec![0, 1, 2, 3, 4]);
    assert_eq!(collect_files(&t, 3), vec![2]);
}

#[test]
fn folder_and_file_accessors() {
    let t = tree();
    assert_eq!(t.folders[1].trees(), &[2, 3]);
    assert_eq!(t.folders[1].leaves(), &[3]);
    assert_eq!(t.folders[1].name(), b"Stadium");
    assert_eq!(t.files[2].name(), b"c");
}
