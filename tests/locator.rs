use dotplugs::repository::{convert_query, LocatorError, Repository};

fn repo(uri: &str) -> Repository {
    Repository { uri: uri.to_string(), dir: "/home/test/.vim/plugged/x/".to_string() }
}

#[test]
fn convert_query_ok() {
    let r = Repository {
        uri: "https://git::@github.com/kana/vim-operator-user.git".to_string(),
        dir: "/home/test/.vim/plugged/vim-operator-user/".to_string(),
    };
    let s = r.get_name_with_owner().unwrap();
    assert_eq!(s, "kana/vim-operator-user");
}

#[test]
fn name_with_owner_without_suffix() {
    assert_eq!(repo("https://example.com/x/y").get_name_with_owner().unwrap(), "x/y");
}

#[test]
fn name_with_owner_trims_every_git_suffix() {
    assert_eq!(repo("https://h/o/n.git.git").get_name_with_owner().unwrap(), "o/n");
}

#[test]
fn name_with_owner_of_a_single_slash() {
    assert_eq!(repo("owner/name").get_name_with_owner().unwrap(), "owner/name");
    assert_eq!(repo("/name").get_name_with_owner().unwrap(), "/name");
}

#[test]
fn name_with_owner_needs_a_slash() {
    assert_eq!(repo("plain").get_name_with_owner(), Err(LocatorError::WrongNameFormat));
    assert_eq!(repo("").get_name_with_owner(), Err(LocatorError::WrongNameFormat));
    assert_eq!(repo("name.git").get_name_with_owner(), Err(LocatorError::WrongNameFormat));
}

#[test]
fn search_query_lists_each_repository() {
    let repos = vec![
        repo("https://git::@github.com/kana/vim-operator-user.git"),
        repo("no-slash"),
        repo("https://git::@github.com/moll/vim-bbye.git"),
    ];
    assert_eq!(convert_query(&repos), " repo:kana/vim-operator-user repo:moll/vim-bbye");
    assert_eq!(convert_query(&vec![]), "");
}
