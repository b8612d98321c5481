use axo::dev::{announced_host, banner_qr, dev_url, html_response, render_qr, QrMatrix};

#[test]
fn preview_address() {
    assert_eq!(dev_url("192.168.1.7", 9876), "http://192.168.1.7:9876");
    assert_eq!(dev_url("10.0.0.1", 0), "http://10.0.0.1:0");
    assert_eq!(announced_host(None), "127.0.0.1");
    assert_eq!(announced_host(Some("10.1.2.3".to_string())), "10.1.2.3");
}

#[test]
fn http_answer_counts_bytes() {
    let body = "<p>Más</p>";
    let r = html_response(body);
    assert_eq!(
        r,
        format!(
            "HTTP/1.1 200 OK\r\nContent-Type: text/html; charset=utf-8\r\nContent-Length: {}\r\nConnection: close\r\n\r\n{}",
            body.len(),
            body
        )
    );
    assert!(r.contains("Content-Length: 11\r\n"));
}

#[test]
fn qr_text_rows() {
    let m = QrMatrix { width: 2, dark: vec![true, false, false, true] };
    assert_eq!(render_qr(&m), "       █ \n        █\n");
    let empty = QrMatrix { width: 0, dark: vec![] };
    assert_eq!(render_qr(&empty), "");
}

#[test]
fn qr_of_an_address_is_a_square_drawing() {
    let url = "http://192.168.1.7:9876";
    let s = banner_qr(url).expect("fits");
    let lines: Vec<&str> = s.lines().collect();
    let code = qrcode::QrCode::new(url.as_bytes()).unwrap();
    assert_eq!(lines.len(), code.width());
    for (y, line) in lines.iter().enumerate() {
        assert!(line.starts_with("       "));
        let cells: Vec<char> = line.chars().skip(7).collect();
        assert_eq!(cells.len(), code.width());
        for (x, c) in cells.iter().enumerate() {
            let dark = code[(x, y)] == qrcode::Color::Dark;
            assert_eq!(*c, if dark { '█' } else { ' ' });
        }
    }
    let too_long = "x".repeat(8000);
    assert!(banner_qr(&too_long).is_none());
}

#[test]
fn banner_without_qr() {
    let lines = axo::dev::banner_lines("l", "Linux", "http://h:1", None);
    assert_eq!(
        lines,
        vec![
            "".to_string(),
            "  ╔═══════════════════════════════════════╗".to_string(),
            "  ║        Axo Framework Dev              ║".to_string(),
            "  ╠═══════════════════════════════════════╣".to_string(),
            format!("  ║  Platform : {}  {}                     ", "l", "Linux"),
            "  ║  Hot reload: ON                        ║".to_string(),
            "  ╠═══════════════════════════════════════╣".to_string(),
            "  ║  [r] Restart    [q] Quit              ║".to_string(),
            "  ╚═══════════════════════════════════════╝".to_string(),
            "".to_string(),
        ]
    );
}

#[test]
fn banner_with_qr_frames_each_row() {
    let m = QrMatrix { width: 2, dark: vec![true, true, false, true] };
    let url = "http://10.0.0.2:9876";
    let lines = axo::dev::banner_lines("a", "Android (Termux)", url, Some(&m));
    assert_eq!(lines.len(), 13 + 2);
    assert_eq!(lines[5], format!("  ║  URL      : {:<31} ║", url));
    assert_eq!(lines[8], "  ║  Scan QR on your phone:               ║");
    assert_eq!(lines[9], "  ║         ██  ║");
    assert_eq!(lines[10], "  ║          █  ║");
    let live = axo::dev::dev_banner("a", "Android", url);
    let code = qrcode::QrCode::new(url.as_bytes()).unwrap();
    assert_eq!(live.len(), 13 + code.width());
    let long = "x".repeat(40);
    let padded_line = format!("  ║  URL      : {:<31} ║", long);
    let m1 = QrMatrix { width: 1, dark: vec![false] };
    assert_eq!(axo::dev::banner_lines("?", "Unknown", &long, Some(&m1))[5], padded_line);
}
