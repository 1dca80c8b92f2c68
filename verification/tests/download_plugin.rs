use matrix_bot::qbittorrent::binary::{
    first_configuration, get_download_link, port_argument, profile_argument, DownloadLinkError,
};
use matrix_bot::qbittorrent::gofile::{
    server_from, upload_from, upload_url, wants_entry, UploadError, UploadInfo, UploadSession,
};
use matrix_bot::qbittorrent::listener::{
    download_reply, help_reply, parse_command, status_failed_reply, Command,
};
use matrix_bot::qbittorrent::magnet::{
    check_new_torrent, is_magnet, same_topic, topic, topic_of_link, AddError,
};
use matrix_bot::qbittorrent::notice::{completion_notice, expiry_notice, Notice};
use matrix_bot::qbittorrent::ops::{
    collect, extract_non_empty_str, finished, is_picked, overdue, room_category,
    scan_torrent, Purpose, Torrent, TorrentState, PATIENCE_SECS,
};
use matrix_bot::qbittorrent::setting::{edit_notice, RoomSetting, Setting};
use matrix_bot::qbittorrent::status::{plain_text, show_status, state_label, table_text, StatusRow};

fn torrent(hash: Option<&str>, state: Option<TorrentState>, category: Option<&str>, added_on: Option<i64>) -> Torrent {
    Torrent {
        added_on,
        state,
        hash: hash.map(|h| h.to_string()),
        category: category.map(|c| c.to_string()),
        tags: None,
        name: None,
        content_path: None,
        magnet_uri: None,
    }
}

#[test]
fn download_links_by_target() {
    let base = "https://github.com/userdocs/qbittorrent-nox-static/releases/latest/download/";
    assert_eq!(get_download_link("linux", "x86_64"), Ok(format!("{}x86_64-qbittorrent-nox", base)));
    assert_eq!(get_download_link("linux", "aarch64"), Ok(format!("{}aarch64-qbittorrent-nox", base)));
    assert_eq!(get_download_link("linux", "x86"), Ok(format!("{}x86-qbittorrent-nox", base)));
    assert_eq!(get_download_link("linux", "arm"), Err(DownloadLinkError::UnsupportedProcessor));
    assert_eq!(get_download_link("linux", ""), Err(DownloadLinkError::UnsupportedProcessor));
    assert_eq!(get_download_link("macos", "x86_64"), Err(DownloadLinkError::UnsupportedSystem));
    assert_eq!(get_download_link("windows", "arm"), Err(DownloadLinkError::UnsupportedSystem));
    assert_eq!(get_download_link("Linux", "x86_64"), Err(DownloadLinkError::UnsupportedSystem));
    assert_eq!(DownloadLinkError::UnsupportedSystem.message(), "only support linux");
    assert_eq!(
        DownloadLinkError::UnsupportedProcessor.message(),
        "only support x86_64 and aarch64"
    );
}

#[test]
fn client_arguments_and_first_configuration() {
    assert_eq!(port_argument(8080), format!("--webui-port={}", 8080));
    assert_eq!(port_argument(0), "--webui-port=0");
    assert_eq!(port_argument(65535), "--webui-port=65535");
    assert_eq!(profile_argument("/tmp/qbit/config"), "--profile=/tmp/qbit/config");
    let expected = format!(
        "[LegalNotice]\n                    Accepted=true\n\n                    [BitTorrent]\n                    Session\\DefaultSavePath={}\n                ",
        "/tmp/qbit/download"
    );
    assert_eq!(first_configuration("/tmp/qbit/download"), expected);
}

#[test]
fn empty_fields_count_as_unset() {
    let set = Some("$event".to_string());
    assert_eq!(extract_non_empty_str(&set), Some(&"$event".to_string()));
    assert_eq!(extract_non_empty_str(&Some(String::new())), None);
    assert_eq!(extract_non_empty_str(&None), None);
    assert_eq!(extract_non_empty_str(&Some(" ".to_string())), Some(&" ".to_string()));
}

#[test]
fn overdue_after_seven_days() {
    assert_eq!(PATIENCE_SECS, 60 * 60 * 24 * 7);
    assert!(!overdue(Some(1_000), 1_000 + 604_800));
    assert!(overdue(Some(1_000), 1_000 + 604_801));
    assert!(!overdue(Some(5_000), 1_000));
    assert!(overdue(None, 604_801));
    assert!(!overdue(None, 604_800));
    assert!(overdue(Some(i64::MIN), 0));
    assert!(!overdue(Some(i64::MAX), u64::MAX - (i64::MAX as u64)));
    assert!(overdue(Some(-1), 604_800));
}

#[test]
fn finished_states_and_room_categories() {
    for s in [TorrentState::PausedUP, TorrentState::StalledUP, TorrentState::Uploading] {
        assert!(finished(Some(s)));
    }
    for s in [
        TorrentState::Downloading,
        TorrentState::QueuedUP,
        TorrentState::ForcedUP,
        TorrentState::CheckingUP,
        TorrentState::Error,
        TorrentState::Unknown,
    ] {
        assert!(!finished(Some(s)));
    }
    assert!(!finished(None));
    assert!(room_category(&Some("!room:example.org".to_string())));
    assert!(room_category(&Some("!".to_string())));
    assert!(!room_category(&Some("room".to_string())));
    assert!(!room_category(&Some(" !room".to_string())));
    assert!(!room_category(&Some(String::new())));
    assert!(!room_category(&None));
}

#[test]
fn a_scan_sorts_torrents() {
    let now = 10_000_000;
    let old = Some(now as i64 - 604_801);
    let young = Some(now as i64 - 604_800);
    let room = Some("!r:example.org");
    let list = vec![
        torrent(Some("a"), Some(TorrentState::Downloading), room, old),
        torrent(Some("b"), Some(TorrentState::Downloading), room, young),
        torrent(Some("c"), Some(TorrentState::Uploading), room, old),
        torrent(None, Some(TorrentState::Downloading), room, old),
        torrent(None, Some(TorrentState::PausedUP), room, old),
        torrent(Some("f"), Some(TorrentState::StalledDL), Some("other"), old),
        torrent(Some("g"), Some(TorrentState::StalledUP), None, young),
        torrent(Some("h"), None, room, None),
        torrent(Some("i"), Some(TorrentState::PausedUP), room, young),
    ];
    let scan = scan_torrent(&list, now);
    let hashes = |v: &Vec<Torrent>| v.iter().map(|t| t.hash.clone().unwrap()).collect::<Vec<_>>();
    assert_eq!(hashes(&scan.expire), vec!["a", "h"]);
    assert_eq!(hashes(&scan.upload), vec!["c", "i"]);
    assert_eq!(scan.expire[0], list[0]);
    assert_eq!(scan.upload[1], list[8]);
    assert!(is_picked(&list[0], Purpose::Expire, now));
    assert!(!is_picked(&list[0], Purpose::Upload, now));
    assert!(!is_picked(&list[3], Purpose::Expire, now));
    let empty = scan_torrent(&vec![], now);
    assert!(empty.expire.is_empty() && empty.upload.is_empty());
}

#[test]
fn a_scan_keeps_one_torrent_per_hash() {
    let room = Some("!r:example.org");
    let mut first = torrent(Some("a"), Some(TorrentState::Uploading), room, None);
    first.name = Some("first".to_string());
    let mut second = torrent(Some("b"), Some(TorrentState::Uploading), room, None);
    second.name = Some("second".to_string());
    let mut third = torrent(Some("a"), Some(TorrentState::PausedUP), room, None);
    third.name = Some("third".to_string());
    let list = vec![first.clone(), second.clone(), third.clone()];
    assert_eq!(collect(&list, Purpose::Upload, 0), vec![second.clone(), third.clone()]);

    let again = vec![first.clone(), second.clone(), third.clone(), second.clone()];
    assert_eq!(collect(&again, Purpose::Upload, 0), vec![third.clone(), second.clone()]);
    assert_eq!(first.duplicate(), first);
}

#[test]
fn states_have_their_labels() {
    let expected = [
        (Some(TorrentState::PausedUP), "下载完成"),
        (Some(TorrentState::StalledUP), "下载完成"),
        (Some(TorrentState::Uploading), "上传中"),
        (Some(TorrentState::PausedDL), "暂停"),
        (Some(TorrentState::StalledDL), "下载中(无连接)"),
        (Some(TorrentState::Downloading), "下载中"),
        (Some(TorrentState::CheckingDL), "检查中"),
        (Some(TorrentState::CheckingUP), "检查中"),
        (Some(TorrentState::QueuedDL), "等待下载"),
        (Some(TorrentState::QueuedUP), "等待上传"),
        (Some(TorrentState::MetaDL), "元数据下载中"),
        (Some(TorrentState::MissingFiles), "缺少文件"),
        (Some(TorrentState::Unknown), "未知"),
        (Some(TorrentState::Error), "错误"),
        (Some(TorrentState::ForcedUP), "强制上传"),
        (Some(TorrentState::ForcedDL), "强制下载"),
        (Some(TorrentState::Allocating), "分配空间"),
        (Some(TorrentState::CheckingResumeData), "检查恢复数据"),
        (Some(TorrentState::Moving), "移动中"),
        (None, "未知"),
    ];
    for (state, label) in expected {
        assert_eq!(state_label(state), label);
    }
}

#[test]
fn the_status_as_text_and_as_table() {
    let rows = vec![
        StatusRow {
            name: "ubuntu.iso".to_string(),
            state: Some(TorrentState::Downloading),
            progress: "12.50%".to_string(),
        },
        StatusRow { name: String::new(), state: None, progress: "0.00%".to_string() },
    ];
    let mut text = String::new();
    let mut html = String::from(
        "<table>
            <thead>
            <tr>
            <th>名称</th>
            <th>状态</th>
            <th>进度</th>
            </tr>
        </thead>
        <tbody>",
    );
    for (name, state, progress) in [("ubuntu.iso", "下载中", "12.50%"), ("", "未知", "0.00%")] {
        text.push_str(&format!("{} {} {}\n", name, state, progress));
        html.push_str(&format!(
            "<tr>
            <td>{}</td>
            <td>{}</td>
            <td>{}</td>
            </tr>",
            name, state, progress
        ));
    }
    html.push_str("</tbody></table>");
    assert_eq!(show_status(&rows), (text.clone(), html.clone()));
    assert_eq!(plain_text(&rows), "ubuntu.iso 下载中 12.50%\n 未知 0.00%\n");
    assert_eq!(table_text(&rows), html);
    assert_eq!(plain_text(&vec![]), "");
    assert_eq!(
        table_text(&vec![]),
        "<table>\n            <thead>\n            <tr>\n            <th>名称</th>\n            <th>状态</th>\n            <th>进度</th>\n            </tr>\n        </thead>\n        <tbody></tbody></table>"
    );
}

#[test]
fn notices_for_the_room_that_asked() {
    let mut t = torrent(Some("a"), None, Some("!r:example.org"), None);
    t.tags = Some("$ask".to_string());
    t.name = Some("ubuntu.iso".to_string());
    assert_eq!(
        expiry_notice(&t),
        Some(Notice {
            room_id: "!r:example.org".to_string(),
            reply_to: Some("$ask".to_string()),
            text: format!("文件名：{}  \n下载超时，已删除。", "ubuntu.iso"),
            markdown: true,
        })
    );
    assert_eq!(
        completion_notice(&t, "https://gofile.io/d/x"),
        Some(Notice {
            room_id: "!r:example.org".to_string(),
            reply_to: Some("$ask".to_string()),
            text: format!("文件名：{}  \n下载完成，[点击下载]({})。", "ubuntu.iso", "https://gofile.io/d/x"),
            markdown: true,
        })
    );
    t.name = None;
    t.tags = Some(String::new());
    assert_eq!(
        expiry_notice(&t),
        Some(Notice {
            room_id: "!r:example.org".to_string(),
            reply_to: None,
            text: "下载超时，已删除。".to_string(),
            markdown: false,
        })
    );
    assert_eq!(
        completion_notice(&t, "p"),
        Some(Notice {
            room_id: "!r:example.org".to_string(),
            reply_to: None,
            text: "下载完成，[点击下载](p)。".to_string(),
            markdown: false,
        })
    );
    t.category = Some(String::new());
    assert_eq!(expiry_notice(&t), None);
    t.category = None;
    assert_eq!(completion_notice(&t, "p"), None);
}

#[test]
fn magnet_links_are_told_apart() {
    assert!(is_magnet("magnet:?xt=urn:btih:c12fe1c06bba254a9dc9f519b335aa7c1367a88a"));
    assert!(is_magnet("magnet:?xt=urn:btih:abc&dn=some+name%20here"));
    assert!(is_magnet("magnet:x trailing words"));
    assert!(!is_magnet("magnet:"));
    assert!(!is_magnet("magnet:#"));
    assert!(!is_magnet(" magnet:?xt=urn:btih:abc"));
    assert!(!is_magnet("https://example.org/a.torrent"));
    assert!(!is_magnet(""));
    assert!(!is_magnet("MAGNET:?xt=urn:btih:abc"));
}

#[test]
fn the_topic_is_the_first_xt_in_lower_case() {
    let pairs = vec![
        ("dn".to_string(), "Name".to_string()),
        ("xt".to_string(), "urn:btih:ABCdef".to_string()),
        ("xt".to_string(), "urn:btih:second".to_string()),
    ];
    assert_eq!(topic(&pairs), Some("urn:btih:abcdef".to_string()));
    assert_eq!(topic(&vec![("XT".to_string(), "a".to_string())]), None);
    assert_eq!(topic(&vec![]), None);
    assert_eq!(
        topic_of_link("magnet:?dn=x&xt=urn:btih:ABC%20D+e"),
        Ok(Some("urn:btih:abc d e".to_string()))
    );
    assert_eq!(topic_of_link("magnet:?dn=x"), Ok(None));
    assert_eq!(topic_of_link("not a url"), Err(AddError::InvalidUrl));
    assert!(same_topic(&None, &None));
    assert!(same_topic(&Some("a".to_string()), &Some("a".to_string())));
    assert!(!same_topic(&Some("a".to_string()), &None));
    assert!(!same_topic(&Some("a".to_string()), &Some("A".to_string())));
}

#[test]
fn links_are_taken_once() {
    let have = vec![
        None,
        Some("magnet:?xt=urn:btih:AAAA&dn=one".to_string()),
        Some("magnet:?xt=urn:btih:bbbb".to_string()),
    ];
    assert_eq!(check_new_torrent("magnet:?xt=urn:btih:cccc", &have), Ok(()));
    assert_eq!(check_new_torrent("magnet:?xt=urn:btih:cccc", &vec![]), Ok(()));
    assert_eq!(
        check_new_torrent("magnet:?xt=urn:btih:aaaa", &have),
        Err(AddError::AlreadyExists)
    );
    assert_eq!(
        check_new_torrent("magnet:?dn=two&xt=urn:btih:BBBB", &have),
        Err(AddError::AlreadyExists)
    );
    assert_eq!(check_new_torrent("https://example.org/", &have), Err(AddError::InvalidMagnet));
    assert_eq!(check_new_torrent("", &have), Err(AddError::InvalidMagnet));

    let broken = vec![Some("no url at all".to_string()), Some("magnet:?xt=urn:btih:cccc".to_string())];
    assert_eq!(check_new_torrent("magnet:?xt=urn:btih:cccc", &broken), Err(AddError::InvalidUrl));
    let later = vec![Some("magnet:?xt=urn:btih:cccc".to_string()), Some("no url at all".to_string())];
    assert_eq!(check_new_torrent("magnet:?xt=urn:btih:cccc", &later), Err(AddError::AlreadyExists));

    let without = vec![Some("magnet:?dn=nameless".to_string())];
    assert_eq!(check_new_torrent("magnet:?dn=other", &without), Err(AddError::AlreadyExists));
    assert_eq!(check_new_torrent("magnet:?xt=urn:btih:cccc", &without), Ok(()));

    assert_eq!(AddError::InvalidMagnet.message(), Some("invalid magnet url"));
    assert_eq!(AddError::AlreadyExists.message(), Some("torrent already exists"));
    assert_eq!(AddError::InvalidUrl.message(), None);
}

#[test]
fn commands_are_read_from_messages() {
    let link = |l: &str| Some(Command::Download { link: l.to_string() });
    assert_eq!(parse_command("!download magnet:?xt=urn:btih:abc"), link("magnet:?xt=urn:btih:abc"));
    assert_eq!(parse_command("  !download   magnet:x   and more \n"), link("magnet:x"));
    assert_eq!(parse_command("!download"), link(""));
    assert_eq!(parse_command("!download\u{3000}"), link(""));
    assert_eq!(parse_command("!downloadmagnet:x"), link("magnet:x"));
    assert_eq!(parse_command("!download!download !download x"), link("!download"));
    assert_eq!(parse_command("!download\tmagnet:x\u{a0}y z"), link("magnet:x\u{a0}y"));
    assert_eq!(parse_command("!qbithelp"), Some(Command::Help));
    assert_eq!(parse_command("\n!qbithelp me"), Some(Command::Help));
    assert_eq!(parse_command("!status"), Some(Command::Status));
    assert_eq!(parse_command("!statusquo"), Some(Command::Status));
    assert_eq!(parse_command(""), None);
    assert_eq!(parse_command(" \t\u{2003}\n"), None);
    assert_eq!(parse_command("hello"), None);
    assert_eq!(parse_command("x !download y"), None);
    assert_eq!(parse_command("!Download y"), None);
    assert_eq!(parse_command("!statu"), None);
}

#[test]
fn commands_match_the_standard_text_functions() {
    for body in ["  !download  a b", "!download!downloadx", "!download \u{85} x\u{b}y", "!download x\u{c}y"] {
        let msg = body.trim();
        let expected = msg
            .trim_start_matches("!download")
            .trim()
            .split_ascii_whitespace()
            .next()
            .unwrap_or_default();
        assert_eq!(parse_command(body), Some(Command::Download { link: expected.to_string() }));
    }
}

#[test]
fn answers_to_commands() {
    assert_eq!(download_reply(None), "添加成功");
    assert_eq!(
        download_reply(Some("torrent already exists")),
        format!("添加失败: {}", "torrent already exists")
    );
    assert_eq!(help_reply(), "!download <magnet_url> - 添加磁力至下载\n!status - 查看下载状态");
    assert_eq!(status_failed_reply("timeout"), format!("获取失败: {}", "timeout"));
}

fn info(token: Option<&str>, page: &str, folder: &str) -> UploadInfo {
    UploadInfo {
        guest_token: token.map(|t| t.to_string()),
        download_page: page.to_string(),
        code: "c".to_string(),
        parent_folder: folder.to_string(),
        file_id: "f".to_string(),
        file_name: "n".to_string(),
        md5: "m".to_string(),
    }
}

#[test]
fn an_upload_session_keeps_token_and_folder() {
    let mut s = UploadSession::new();
    assert!(s.form_fields().is_empty());
    s.record(info(Some("tok1"), "page1", "folder1"));
    assert_eq!(
        s.form_fields(),
        vec![("token".to_string(), "tok1".to_string()), ("folderId".to_string(), "folder1".to_string())]
    );
    s.record(info(None, "page2", "folder2"));
    assert_eq!(s.token, Some("tok1".to_string()));
    assert_eq!(s.folder_id, Some("folder1".to_string()));
    assert_eq!(s.download_page, "page2");
    s.record(info(Some("tok3"), "page3", "folder3"));
    assert_eq!(s.token, Some("tok3".to_string()));
    assert_eq!(s.folder_id, Some("folder1".to_string()));
    assert_eq!(s.finish(), Ok("page3".to_string()));
    assert_eq!(UploadSession::new().finish(), Err(UploadError::NothingUploaded));
    let mut only_folder = UploadSession::new();
    only_folder.record(info(None, "", "folder"));
    assert_eq!(only_folder.form_fields(), vec![("folderId".to_string(), "folder".to_string())]);
    assert_eq!(only_folder.finish(), Err(UploadError::NothingUploaded));
}

#[test]
fn answers_of_the_file_host() {
    assert_eq!(server_from("ok", "store3".to_string()), Ok("store3".to_string()));
    assert_eq!(server_from("error", "store3".to_string()), Err(UploadError::NoServer));
    assert_eq!(server_from("OK", "store3".to_string()), Err(UploadError::NoServer));
    assert_eq!(upload_from("ok", info(None, "p", "f")), Ok(info(None, "p", "f")));
    assert_eq!(upload_from("", info(None, "p", "f")), Err(UploadError::Refused));
    assert_eq!(upload_url("store3"), format!("https://{}.gofile.io/uploadFile", "store3"));
    assert!(wants_entry(true, "a.mkv"));
    assert!(wants_entry(true, ""));
    assert!(!wants_entry(true, ".hidden"));
    assert!(!wants_entry(false, "a.mkv"));
    assert!(!wants_entry(false, ".hidden"));
}

#[test]
fn settings_of_the_download_plugin() {
    let s = Setting::template("plugins/qbittorrent/download".to_string(), "plugins/qbittorrent/db".to_string());
    assert_eq!(
        s,
        Setting {
            room: vec![RoomSetting {
                download_path: "plugins/qbittorrent/download".to_string(),
                room_id: String::new(),
                db_path: "plugins/qbittorrent/db".to_string(),
            }],
            qbit_user: "admin".to_string(),
            qbit_pass: "adminadmin".to_string(),
            qbit_url: "http://127.0.0.1:8080".to_string(),
            use_internal_qbit: true,
        }
    );
    assert_eq!(s.internal_port(), 8080);
    assert_eq!(s.room_index(""), Some(0));
    assert_eq!(s.room_index("!r:example.org"), None);
    assert_eq!(edit_notice("data/plugins/qbittorrent.toml"), "please edit setting file: data/plugins/qbittorrent.toml");
}

#[test]
fn the_port_is_read_off_the_end_of_the_address() {
    let port = |url: &str| {
        let mut s = Setting::template(String::new(), String::new());
        s.qbit_url = url.to_string();
        s.internal_port()
    };
    for url in [
        "http://127.0.0.1:8080",
        "http://localhost",
        "localhost:+81",
        "localhost:65535",
        "localhost:65536",
        "localhost:",
        "localhost:0080",
        "localhost:00000000000000000000000000000000080",
        "localhost:99999999999999999999999999999999999",
        "localhost:-1",
        "localhost:+",
        "localhost:8080/",
        "localhost: 80",
        "[::1]:9",
        "",
        "443",
        "+",
    ] {
        let expected: u16 = url.split(":").last().unwrap_or("80").parse().unwrap_or(80);
        assert_eq!(port(url), expected);
    }
    assert_eq!(port("http://127.0.0.1:8080"), 8080);
    assert_eq!(port("http://localhost"), 80);
    assert_eq!(port("localhost:65536"), 80);
    assert_eq!(port("localhost:+81"), 81);
}

#[test]
fn the_last_settings_for_a_room_count() {
    let room = |id: &str, path: &str| RoomSetting {
        download_path: path.to_string(),
        room_id: id.to_string(),
        db_path: String::new(),
    };
    let mut s = Setting::template(String::new(), String::new());
    s.room = vec![room("!a", "1"), room("!b", "2"), room("!a", "3")];
    assert_eq!(s.room_index("!a"), Some(2));
    assert_eq!(s.room_index("!b"), Some(1));
    assert_eq!(s.room_index("!c"), None);
}
