use vstd::prelude::*;
use vstd::string::StringExecFns;
use crate::color::{lemma_utf8_len_is_encoded_len, utf8_len};
use crate::text::{decimal, decimal_digits};

verus! {

/// The address the development preview is served at.
pub open spec fn dev_url_text(ip: Seq<char>, port: u16) -> Seq<char> {
    "http://"@ + ip + ":"@ + decimal_digits(port as nat)
}

/// The address the development preview is served at: `http://ip:port`.
pub fn dev_url(ip: &str, port: u16) -> (url: String)
    ensures
        url@ == dev_url_text(ip@, port),
{
    let mut url = String::from_str("http://");
    url.append(ip);
    url.append(":");
    let p = decimal(port as u64);
    url.append(p.as_str());
    url
}

/// The host to announce: the machine's address when one was found, else
/// the loopback address.
pub fn announced_host(found: Option<String>) -> (host: String)
    ensures
        host@ == match found {
            Some(a) => a@,
            None => "127.0.0.1"@,
        },
{
    match found {
        Some(a) => a,
        None => String::from_str("127.0.0.1"),
    }
}

/// A complete HTTP/1.1 `200 OK` answer carrying an HTML page, whose
/// `Content-Length` is the page's size in UTF-8 bytes.
pub open spec fn html_response_text(body: Seq<char>) -> Seq<char> {
    "HTTP/1.1 200 OK\r\nContent-Type: text/html; charset=utf-8\r\nContent-Length: "@
        + decimal_digits(utf8_len(body)) + "\r\nConnection: close\r\n\r\n"@ + body
}

/// The answer the preview server sends for any request.
pub fn html_response(body: &str) -> (r: String)
    requires
        utf8_len(body@) <= usize::MAX,
    ensures
        r@ == html_response_text(body@),
{
    proof {
        lemma_utf8_len_is_encoded_len(body@);
    }
    let mut r = String::from_str(
        "HTTP/1.1 200 OK\r\nContent-Type: text/html; charset=utf-8\r\nContent-Length: ",
    );
    let len = body.len();
    assert(len as u64 as nat == utf8_len(body@));
    let n = decimal(len as u64);
    r.append(n.as_str());
    r.append("\r\nConnection: close\r\n\r\n");
    r.append(body);
    r
}

/// A QR code as its width and its modules row by row, `true` for dark.
#[derive(Debug)]
pub struct QrMatrix {
    pub width: usize,
    pub dark: Vec<bool>,
}

/// The QR code that `qrcode::QrCode::new` makes of a text: its width and its
/// modules row by row, or `None` when the text does not fit in one.
pub uninterp spec fn qr_code_of(data: Seq<char>) -> Option<(usize, Seq<bool>)>;

/// `qrcode::QrCode::new` on the text's UTF-8 bytes (error correction level M,
/// the smallest version that fits), read back as width and modules, dark
/// ones `true`. The code it builds is named by `qr_code_of`, not stated; of
/// it the crate's source shows that it has width × width modules.
#[verifier::external_body]
#[allow(deprecated)]
fn encode_qr(data: &str) -> (r: Option<QrMatrix>)
    ensures
        match r {
            Some(m) => qr_code_of(data@) == Some((m.width, m.dark@)) && m.dark@.len() == m.width
                * m.width,
            None => qr_code_of(data@) is None,
        },
{
    match qrcode::QrCode::new(data.as_bytes()) {
        Ok(code) => Some(QrMatrix { width: code.width(), dark: code.to_vec() }),
        Err(_) => None,
    }
}

/// The character a module is drawn with.
pub open spec fn qr_cell(dark: bool) -> char {
    if dark {
        '█'
    } else {
        ' '
    }
}

/// The first `n` modules of row `y`.
pub open spec fn qr_row(w: nat, dark: Seq<bool>, y: nat, n: nat) -> Seq<char>
    decreases n,
{
    if n == 0 {
        seq![]
    } else {
        qr_row(w, dark, y, (n - 1) as nat).push(qr_cell(dark[y * w + n - 1]))
    }
}

/// The first `rows` rows of a QR code as text lines, each indented by seven
/// spaces and ended by a newline.
pub open spec fn qr_lines(w: nat, dark: Seq<bool>, rows: nat) -> Seq<char>
    decreases rows,
{
    if rows == 0 {
        seq![]
    } else {
        qr_lines(w, dark, (rows - 1) as nat) + "       "@ + qr_row(w, dark, (rows - 1) as nat, w)
            + seq!['\n']
    }
}

/// A QR code drawn in text, one line per row.
pub open spec fn qr_text(w: nat, dark: Seq<bool>) -> Seq<char> {
    qr_lines(w, dark, w)
}

/// Draws a QR code in text: each row indented by seven spaces, a dark
/// module as `█` and a light one as a space.
pub fn render_qr(m: &QrMatrix) -> (s: String)
    requires
        m.dark@.len() == m.width * m.width,
    ensures
        s@ == qr_text(m.width as nat, m.dark@),
{
    let w = m.width;
    let total = m.dark.len();
    let mut out = String::new();
    let mut y: usize = 0;
    let mut off: usize = 0;
    while y < w
        invariant
            w == m.width,
            m.dark@.len() == w * w,
            total == m.dark@.len(),
            y <= w,
            off == y * w,
            out@ == qr_lines(w as nat, m.dark@, y as nat),
        decreases w - y,
    {
        assert((y + 1) * w <= w * w) by (nonlinear_arith)
            requires
                y < w,
        ;
        assert(off + w == (y + 1) * w) by (nonlinear_arith)
            requires
                off == y * w,
        ;
        let ghost line_start = out@;
        out.append("       ");
        let mut x: usize = 0;
        while x < w
            invariant
                w == m.width,
                m.dark@.len() == w * w,
                total == m.dark@.len(),
                y < w,
                off == y * w,
                off + w <= w * w,
                x <= w,
                out@ == line_start + "       "@ + qr_row(w as nat, m.dark@, y as nat, x as nat),
            decreases w - x,
        {
            if m.dark[off + x] {
                out.append("█");
            } else {
                out.append(" ");
            }
            proof {
                reveal_strlit("█");
                reveal_strlit(" ");
                assert(qr_row(w as nat, m.dark@, y as nat, (x + 1) as nat) == qr_row(
                    w as nat,
                    m.dark@,
                    y as nat,
                    x as nat,
                ).push(qr_cell(m.dark@[off + x])));
            }
            x = x + 1;
        }
        out.append("\n");
        proof {
            reveal_strlit("\n");
        }
        assert(line_start == qr_lines(w as nat, m.dark@, y as nat));
        off = off + w;
        y = y + 1;
    }
    out
}

/// The QR code of the preview address drawn in text, or `None` when the
/// address does not fit in a QR code.
pub fn banner_qr(url: &str) -> (r: Option<String>)
    ensures
        match r {
            Some(s) => qr_code_of(url@) matches Some((w, d)) && s@ == qr_text(w as nat, d),
            None => qr_code_of(url@) is None,
        },
{
    match encode_qr(url) {
        Some(m) => Some(render_qr(&m)),
        None => None,
    }
}

/// A text padded with spaces on the right to at least `width` characters,
/// as `{:<width}` formats it.
pub open spec fn pad_right(s: Seq<char>, width: nat) -> Seq<char> {
    if s.len() >= width {
        s
    } else {
        s + Seq::new((width - s.len()) as nat, |i: int| ' ')
    }
}

fn padded(s: &str, width: usize) -> (r: String)
    ensures
        r@ == pad_right(s@, width as nat),
{
    proof {
        reveal_strlit(" ");
    }
    let n = crate::text::chars_of(s).len();
    let mut r = String::from_str(s);
    let mut k = n;
    while k < width
        invariant
            n == s@.len(),
            n <= k <= width || (n >= width && k == n),
            r@ == s@ + Seq::new((k - n) as nat, |i: int| ' '),
        decreases width - k,
    {
        r.append(" ");
        proof {
            reveal_strlit(" ");
        }
        assert(r@ =~= s@ + Seq::new((k + 1 - n) as nat, |i: int| ' '));
        k = k + 1;
    }
    assert(n >= width ==> r@ =~= s@);
    r
}

/// The frame lines of the development banner.
pub open spec fn banner_top() -> Seq<Seq<char>> {
    seq![
        Seq::<char>::empty(),
        "  ╔═══════════════════════════════════════╗"@,
        "  ║        Axo Framework Dev              ║"@,
        "  ╠═══════════════════════════════════════╣"@,
    ]
}

/// The platform line of the development banner.
pub open spec fn banner_platform_line(indicator: Seq<char>, os_name: Seq<char>) -> Seq<char> {
    "  ║  Platform : "@ + indicator + "  "@ + os_name + "                     "@
}

/// The closing lines of the development banner.
pub open spec fn banner_bottom() -> Seq<Seq<char>> {
    seq![
        "  ╠═══════════════════════════════════════╣"@,
        "  ║  [r] Restart    [q] Quit              ║"@,
        "  ╚═══════════════════════════════════════╝"@,
        Seq::<char>::empty(),
    ]
}

/// The banner lines for the rows of a QR code, each row framed.
pub open spec fn banner_qr_rows(w: nat, dark: Seq<bool>, rows: nat) -> Seq<Seq<char>>
    decreases rows,
{
    if rows == 0 {
        seq![]
    } else {
        banner_qr_rows(w, dark, (rows - 1) as nat).push(
            "  ║  "@ + "       "@ + qr_row(w, dark, (rows - 1) as nat, w) + "  ║"@,
        )
    }
}

/// The development banner: the platform, and, when the preview address has a
/// QR code, the address and the code to scan.
pub open spec fn banner_text(
    indicator: Seq<char>,
    os_name: Seq<char>,
    url: Seq<char>,
    qr: Option<(usize, Seq<bool>)>,
) -> Seq<Seq<char>> {
    match qr {
        Some((w, dark)) => banner_top() + seq![
            banner_platform_line(indicator, os_name),
            "  ║  URL      : "@ + pad_right(url, 31) + " ║"@,
            "  ║  Hot reload: ON                        ║"@,
            "  ╠═══════════════════════════════════════╣"@,
            "  ║  Scan QR on your phone:               ║"@,
        ] + banner_qr_rows(w as nat, dark, w as nat) + banner_bottom(),
        None => banner_top() + seq![
            banner_platform_line(indicator, os_name),
            "  ║  Hot reload: ON                        ║"@,
        ] + banner_bottom(),
    }
}

fn push_line(lines: &mut Vec<String>, text: &str)
    ensures
        arg_text_views(final(lines)@) == arg_text_views(old(lines)@).push(text@),
{
    push_string(lines, String::from_str(text));
}

fn push_string(lines: &mut Vec<String>, text: String)
    ensures
        arg_text_views(final(lines)@) == arg_text_views(old(lines)@).push(text@),
{
    let ghost t = text@;
    lines.push(text);
    assert(arg_text_views(lines@) =~= arg_text_views(old(lines)@).push(t));
}

/// The views of a list of lines.
pub open spec fn arg_text_views(v: Seq<String>) -> Seq<Seq<char>> {
    v.map_values(|s: String| s@)
}

fn qr_row_line(m: &QrMatrix, y: usize) -> (line: String)
    requires
        m.dark@.len() == m.width * m.width,
        y < m.width,
    ensures
        line@ == "  ║  "@ + "       "@ + qr_row(m.width as nat, m.dark@, y as nat, m.width as nat)
            + "  ║"@,
{
    let w = m.width;
    let total = m.dark.len();
    assert(y * w + w <= w * w) by (nonlinear_arith)
        requires
            y < w,
    ;
    let off = y * w;
    let mut line = String::from_str("  ║  ");
    line.append("       ");
    let ghost start = line@;
    let mut x: usize = 0;
    while x < w
        invariant
            w == m.width,
            total == m.dark@.len(),
            m.dark@.len() == w * w,
            off == y * w,
            off + w <= w * w,
            x <= w,
            line@ == start + qr_row(w as nat, m.dark@, y as nat, x as nat),
        decreases w - x,
    {
        if m.dark[off + x] {
            line.append("█");
        } else {
            line.append(" ");
        }
        proof {
            reveal_strlit("█");
            reveal_strlit(" ");
        }
        x = x + 1;
    }
    line.append("  ║");
    line
}

/// The development banner as lines, for a QR code already made of the
/// preview address (or none).
pub fn banner_lines(indicator: &str, os_name: &str, url: &str, qr: Option<&QrMatrix>) -> (lines: Vec<String>)
    requires
        match qr {
            Some(m) => m.dark@.len() == m.width * m.width,
            None => true,
        },
    ensures
        arg_text_views(lines@) == banner_text(
            indicator@,
            os_name@,
            url@,
            match qr {
                Some(m) => Some((m.width, m.dark@)),
                None => None,
            },
        ),
{
    let mut lines: Vec<String> = Vec::new();
    push_string(&mut lines, String::new());
    push_line(&mut lines, "  ╔═══════════════════════════════════════╗");
    push_line(&mut lines, "  ║        Axo Framework Dev              ║");
    push_line(&mut lines, "  ╠═══════════════════════════════════════╣");
    let mut platform = String::from_str("  ║  Platform : ");
    platform.append(indicator);
    platform.append("  ");
    platform.append(os_name);
    platform.append("                     ");
    push_string(&mut lines, platform);
    let ghost head = arg_text_views(lines@);
    assert(head =~= banner_top().push(banner_platform_line(indicator@, os_name@)));
    match qr {
        Some(m) => {
            let mut url_line = String::from_str("  ║  URL      : ");
            let p = padded(url, 31);
            url_line.append(p.as_str());
            url_line.append(" ║");
            push_string(&mut lines, url_line);
            push_line(&mut lines, "  ║  Hot reload: ON                        ║");
            push_line(&mut lines, "  ╠═══════════════════════════════════════╣");
            push_line(&mut lines, "  ║  Scan QR on your phone:               ║");
            let ghost mid = arg_text_views(lines@);
            let mut y: usize = 0;
            while y < m.width
                invariant
                    m.dark@.len() == m.width * m.width,
                    y <= m.width,
                    arg_text_views(lines@) == mid + banner_qr_rows(
                        m.width as nat,
                        m.dark@,
                        y as nat,
                    ),
                decreases m.width - y,
            {
                let row = qr_row_line(m, y);
                push_string(&mut lines, row);
                y = y + 1;
            }
            push_line(&mut lines, "  ╠═══════════════════════════════════════╣");
            push_line(&mut lines, "  ║  [r] Restart    [q] Quit              ║");
            push_line(&mut lines, "  ╚═══════════════════════════════════════╝");
            push_string(&mut lines, String::new());
            assert(arg_text_views(lines@) =~= banner_text(
                indicator@,
                os_name@,
                url@,
                Some((m.width, m.dark@)),
            ));
        },
        None => {
            push_line(&mut lines, "  ║  Hot reload: ON                        ║");
            push_line(&mut lines, "  ╠═══════════════════════════════════════╣");
            push_line(&mut lines, "  ║  [r] Restart    [q] Quit              ║");
            push_line(&mut lines, "  ╚═══════════════════════════════════════╝");
            push_string(&mut lines, String::new());
            assert(arg_text_views(lines@) =~= banner_text(indicator@, os_name@, url@, None));
        },
    }
    lines
}

/// The development banner for a preview address: with its QR code when the
/// address fits in one.
pub fn dev_banner(indicator: &str, os_name: &str, url: &str) -> (lines: Vec<String>)
    ensures
        arg_text_views(lines@) == banner_text(indicator@, os_name@, url@, qr_code_of(url@)),
{
    match encode_qr(url) {
        Some(m) => banner_lines(indicator, os_name, url, Some(&m)),
        None => banner_lines(indicator, os_name, url, None),
    }
}

} // verus!
