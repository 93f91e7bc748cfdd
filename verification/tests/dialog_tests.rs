use phantomftp::app::ConnectionDialog;
use phantomftp::ftp::ProtocolType;

#[test]
fn typing_goes_to_the_selected_field() {
    let mut d = ConnectionDialog::new();
    assert_eq!(d.selected_field(), 0);
    d.input_char('h');
    d.input_char('o');
    d.next_field();
    d.input_char('u');
    d.next_field();
    d.input_char('p');
    d.next_field();
    d.input_char('x');
    assert_eq!(d.server(), "ho");
    assert_eq!(d.username(), "u");
    assert_eq!(d.password(), "p");
    assert!(d.is_complete());
}

#[test]
fn backspace_undoes_typing() {
    let mut d = ConnectionDialog::new();
    d.input_char('a');
    d.input_char('b');
    d.backspace();
    assert_eq!(d.server(), "a");
    d.backspace();
    d.backspace();
    assert_eq!(d.server(), "");
    assert!(!d.is_complete());
}

#[test]
fn fields_wrap_around() {
    let mut d = ConnectionDialog::default();
    d.prev_field();
    assert_eq!(d.selected_field(), 4);
    d.next_field();
    assert_eq!(d.selected_field(), 0);
    for _ in 0..5 {
        d.next_field();
    }
    assert_eq!(d.selected_field(), 0);
}

#[test]
fn protocol_and_tls_switches() {
    let mut d = ConnectionDialog::new();
    assert_eq!(*d.protocol(), ProtocolType::Ftp);
    d.cycle_protocol();
    assert_eq!(*d.protocol(), ProtocolType::Ftps);
    d.cycle_protocol();
    assert_eq!(*d.protocol(), ProtocolType::Ftp);
    d.select_protocol(ProtocolType::Ftps);
    assert_eq!(*d.protocol(), ProtocolType::Ftps);
    assert!(!d.use_tls());
    d.toggle_tls();
    assert!(d.use_tls());
}

#[test]
fn clone_keeps_the_contents() {
    let mut d = ConnectionDialog::new();
    d.input_char('s');
    let e = d.clone();
    assert_eq!(e.server(), "s");
}
