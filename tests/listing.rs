use xwinlist::listing::{window_line, window_lines};
use xwinlist::property::{decode_value, read_property_text};
use xwinlist::render::{byte_list, push_digits};
use xwinlist::resolver::{
    interned, AtomName, Phase, Reply, Request, Step, TitleProperty, ATOM_NONE, ATOM_STRING,
    FETCH_LIMIT,
};

/// A scripted display server: the atoms it knows and the properties set on
/// its windows, each with its stored type.
struct Server {
    atoms: Vec<(&'static str, u32)>,
    props: Vec<(u32, &'static str, u32, Vec<u8>)>,
    refuse_utf8: bool,
    requests: usize,
}

const UTF8: u32 = 300;

impl Server {
    fn new() -> Server {
        Server {
            atoms: vec![
                ("UTF8_STRING", UTF8),
                ("_NET_WM_NAME", 301),
                ("WM_NAME", 39),
                ("WM_CLASS", 67),
            ],
            props: Vec::new(),
            refuse_utf8: false,
            requests: 0,
        }
    }

    fn set(&mut self, window: u32, name: &'static str, ty: u32, value: &[u8]) {
        self.props.push((window, name, ty, value.to_vec()));
    }

    fn atom(&self, name: &str) -> Option<u32> {
        self.atoms.iter().find(|(n, _)| *n == name).map(|(_, a)| *a)
    }

    fn answer(&mut self, req: Request) -> Reply {
        self.requests += 1;
        match req {
            Request::InternAtom { name, only_if_exists } => {
                assert!(only_if_exists);
                if self.refuse_utf8 && name == AtomName::Utf8String {
                    return Reply::Atom(None);
                }
                Reply::Atom(Some(self.atom(name.text()).unwrap_or(ATOM_NONE)))
            }
            Request::GetProperty { delete, window, property, type_atom, long_offset, long_length } => {
                assert!(!delete);
                assert_eq!(long_offset, 0);
                assert_eq!(long_length, FETCH_LIMIT);
                let found = self.props.iter().find(|(w, n, _, _)| {
                    *w == window && self.atom(n) == Some(property)
                });
                match found {
                    Some((_, _, ty, v)) if *ty == type_atom => Reply::Property(Some(v.clone())),
                    _ => Reply::Property(Some(Vec::new())),
                }
            }
        }
    }

    fn title(&mut self, window: u32) -> Option<String> {
        let mut phase = Phase::start();
        loop {
            let reply = self.answer(phase.request(window));
            match phase.on_reply(reply) {
                Step::Next(p) => phase = p,
                Step::Done(t) => return t,
            }
        }
    }

    fn listing(&mut self, children: &[u32]) -> Vec<String> {
        let windows: Vec<(u32, Option<String>)> =
            children.iter().map(|w| (*w, self.title(*w))).collect();
        window_lines(&windows)
    }
}

#[test]
fn terminal_window() {
    let mut s = Server::new();
    s.set(0x100, "_NET_WM_NAME", UTF8, b"Terminal");
    assert_eq!(s.listing(&[0x100]), vec!["Window ID: 0x100, Name: Terminal".to_string()]);
}

#[test]
fn untitled_window_then_editor() {
    let mut s = Server::new();
    s.set(0x200, "WM_NAME", ATOM_STRING, b"Editor");
    assert_eq!(
        s.listing(&[0x100, 0x200]),
        vec![
            "Window ID: 0x100, Name: No name".to_string(),
            "Window ID: 0x200, Name: Editor".to_string(),
        ]
    );
}

#[test]
fn no_children() {
    let mut s = Server::new();
    assert!(s.listing(&[]).is_empty());
    assert!(window_lines(&Vec::new()).is_empty());
}

#[test]
fn invalid_utf8_title() {
    let mut s = Server::new();
    s.set(0x300, "_NET_WM_NAME", UTF8, &[0xff, 0xfe, 0x00, 0x41]);
    assert_eq!(s.listing(&[0x300]), vec!["Window ID: 0x300, Name: [255, 254, 0, 65]".to_string()]);
}

#[test]
fn one_line_per_window_in_order() {
    let mut s = Server::new();
    s.set(0x3, "WM_NAME", ATOM_STRING, b"three");
    s.set(0x1, "WM_NAME", ATOM_STRING, b"one");
    let lines = s.listing(&[0x3, 0x2, 0x1, 0x2]);
    assert_eq!(
        lines,
        vec![
            "Window ID: 0x3, Name: three".to_string(),
            "Window ID: 0x2, Name: No name".to_string(),
            "Window ID: 0x1, Name: one".to_string(),
            "Window ID: 0x2, Name: No name".to_string(),
        ]
    );
}

#[test]
fn net_wm_name_before_wm_name() {
    let mut s = Server::new();
    s.set(0x10, "_NET_WM_NAME", UTF8, b"A");
    s.set(0x10, "WM_NAME", ATOM_STRING, b"B");
    assert_eq!(s.title(0x10), Some("A".to_string()));
    // A title found by the first probe ends the window's requests.
    assert_eq!(s.requests, 3);
}

#[test]
fn wm_name_alone() {
    let mut s = Server::new();
    s.set(0x10, "WM_NAME", ATOM_STRING, b"B");
    assert_eq!(s.title(0x10), Some("B".to_string()));
}

#[test]
fn wm_class_as_last_resort() {
    let mut s = Server::new();
    s.set(0x10, "WM_CLASS", ATOM_STRING, b"cls\0Cls");
    assert_eq!(s.title(0x10), Some("cls\0Cls".to_string()));
    assert_eq!(s.listing(&[0x10]), vec!["Window ID: 0x10, Name: cls\0Cls".to_string()]);
}

#[test]
fn no_title_properties() {
    let mut s = Server::new();
    assert_eq!(s.title(0x10), None);
    assert_eq!(s.requests, 7);
}

#[test]
fn utf8_passthrough() {
    let mut s = Server::new();
    s.set(0x10, "_NET_WM_NAME", UTF8, &[0xf0, 0x9f, 0x98, 0x80]);
    assert_eq!(s.title(0x10), Some("\u{1F600}".to_string()));
}

#[test]
fn non_utf8_wm_name_falls_back_to_bytes() {
    let mut s = Server::new();
    s.set(0x10, "WM_NAME", ATOM_STRING, &[0xff, 0xfe, 0x00, 0x41]);
    s.set(0x11, "WM_NAME", ATOM_STRING, b"next");
    assert_eq!(
        s.listing(&[0x10, 0x11]),
        vec![
            "Window ID: 0x10, Name: [255, 254, 0, 65]".to_string(),
            "Window ID: 0x11, Name: next".to_string(),
        ]
    );
}

#[test]
fn utf8_string_refused() {
    let mut s = Server::new();
    s.refuse_utf8 = true;
    s.set(0x10, "_NET_WM_NAME", ATOM_STRING, b"plain");
    assert_eq!(s.title(0x10), Some("plain".to_string()));
}

#[test]
fn utf8_string_unknown_to_server() {
    let mut s = Server::new();
    s.atoms.retain(|(n, _)| *n != "UTF8_STRING");
    s.set(0x10, "_NET_WM_NAME", ATOM_STRING, b"plain");
    assert_eq!(s.title(0x10), Some("plain".to_string()));
}

#[test]
fn hex_window_id() {
    assert_eq!(window_line(0x00a0001f, &Some("x".to_string())), "Window ID: 0xa0001f, Name: x");
    assert_eq!(window_line(0, &None), "Window ID: 0x0, Name: No name");
    assert_eq!(window_line(u32::MAX, &None), "Window ID: 0xffffffff, Name: No name");
}

#[test]
fn property_error_moves_to_next_probe() {
    let phase = Phase::FetchProperty {
        property: TitleProperty::NetWmName,
        title_type: UTF8,
        atom: 301,
    };
    match phase.on_reply(Reply::Property(None)) {
        Step::Next(p) => assert_eq!(
            p,
            Phase::InternProperty { property: TitleProperty::WmName, title_type: UTF8 }
        ),
        Step::Done(_) => panic!("an error reply ends no resolution"),
    }
}

#[test]
fn unknown_atom_skips_the_fetch() {
    let phase = Phase::InternProperty { property: TitleProperty::WmName, title_type: UTF8 };
    match phase.on_reply(Reply::Atom(Some(ATOM_NONE))) {
        Step::Next(p) => assert_eq!(
            p,
            Phase::InternProperty { property: TitleProperty::WmClass, title_type: UTF8 }
        ),
        Step::Done(_) => panic!("a later probe remains"),
    }
    let last = Phase::InternProperty { property: TitleProperty::WmClass, title_type: UTF8 };
    assert!(matches!(last.on_reply(Reply::Atom(None)), Step::Done(None)));
}

#[test]
fn wrong_reply_kind_counts_as_failure() {
    let phase = Phase::InternTitleType;
    match phase.on_reply(Reply::Property(Some(vec![1]))) {
        Step::Next(p) => assert_eq!(
            p,
            Phase::InternProperty { property: TitleProperty::NetWmName, title_type: ATOM_STRING }
        ),
        Step::Done(_) => panic!("resolution goes on"),
    }
}

#[test]
fn fetch_request_fields() {
    let phase = Phase::FetchProperty { property: TitleProperty::WmName, title_type: UTF8, atom: 39 };
    assert_eq!(
        phase.request(0x42),
        Request::GetProperty {
            delete: false,
            window: 0x42,
            property: 39,
            type_atom: ATOM_STRING,
            long_offset: 0,
            long_length: 1024,
        }
    );
    let first = Phase::FetchProperty { property: TitleProperty::NetWmName, title_type: UTF8, atom: 301 };
    assert!(matches!(first.request(7), Request::GetProperty { type_atom: UTF8, .. }));
}

#[test]
fn atom_names() {
    assert_eq!(AtomName::Utf8String.text(), "UTF8_STRING");
    assert_eq!(AtomName::Title(TitleProperty::NetWmName).text(), "_NET_WM_NAME");
    assert_eq!(AtomName::Title(TitleProperty::WmName).text(), "WM_NAME");
    assert_eq!(AtomName::Title(TitleProperty::WmClass).text(), "WM_CLASS");
}

#[test]
fn interned_atoms() {
    assert_eq!(interned(Some(5)), Some(5));
    assert_eq!(interned(Some(ATOM_NONE)), None);
    assert_eq!(interned(None), None);
}

#[test]
fn empty_value_is_absent() {
    assert_eq!(read_property_text(Some(Vec::new())), None);
    assert_eq!(read_property_text(None), None);
    assert_eq!(read_property_text(Some(b"t".to_vec())), Some("t".to_string()));
}

#[test]
fn decoding_keeps_multibyte_text() {
    assert_eq!(decode_value(&[0xc3, 0xa9]), "\u{e9}");
    assert_eq!(decode_value(&[0xc3]), "[195]");
    assert_eq!(decode_value(b"a\0b"), "a\0b");
}

#[test]
fn byte_lists() {
    assert_eq!(byte_list(&[]), "[]");
    assert_eq!(byte_list(&[0]), "[0]");
    assert_eq!(byte_list(&[10, 200, 7]), "[10, 200, 7]");
}

#[test]
fn digits_in_bases() {
    let mut s = String::new();
    push_digits(&mut s, 0, 16);
    push_digits(&mut s, 255, 10);
    push_digits(&mut s, 0xbeef, 16);
    assert_eq!(s, "0255beef");
}
