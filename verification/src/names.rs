//! Deterministic naming: archive entry names (`image_<index>.jpg`, index
//! starting at 1 in original message order), the scratch-area name, the
//! archive file name, and the resolved download location.

use vstd::prelude::*;

verus! {

/// Decimal digits of `n`, most significant first.
pub open spec fn dec_digits(n: nat) -> Seq<u8>
    decreases n,
{
    if n < 10 {
        seq![(48 + n) as u8]
    } else {
        dec_digits(n / 10) + seq![(48 + n % 10) as u8]
    }
}

/// Decimal rendering of a signed value: a minus sign before the digits of
/// its magnitude.
pub open spec fn dec_int(n: int) -> Seq<u8> {
    if n < 0 {
        seq![45u8] + dec_digits((-n) as nat)
    } else {
        dec_digits(n as nat)
    }
}

/// Appends the bytes of `s` to `out`.
pub fn push_all(out: &mut Vec<u8>, s: &[u8])
    ensures
        final(out)@ == old(out)@ + s@,
{
    let mut i: usize = 0;
    while i < s.len()
        invariant
            0 <= i <= s.len(),
            out@ == old(out)@ + s@.take(i as int),
        decreases s.len() - i,
    {
        out.push(s[i]);
        proof {
            assert(old(out)@ + s@.take(i + 1) =~= (old(out)@ + s@.take(i as int)).push(
                s@[i as int],
            ));
        }
        i = i + 1;
    }
    proof {
        assert(s@.take(s@.len() as int) =~= s@);
    }
}

/// Appends the decimal digits of `n` to `out`.
pub fn push_dec(out: &mut Vec<u8>, n: u64)
    ensures
        final(out)@ == old(out)@ + dec_digits(n as nat),
    decreases n,
{
    if n < 10 {
        out.push(48 + n as u8);
        proof {
            assert(old(out)@ + dec_digits(n as nat) =~= old(out)@.push((48 + n) as u8));
        }
    } else {
        push_dec(out, n / 10);
        out.push(48 + (n % 10) as u8);
        proof {
            assert(old(out)@ + dec_digits(n as nat) =~= (old(out)@ + dec_digits(
                (n / 10) as nat,
            )).push((48 + n % 10) as u8));
        }
    }
}

/// Appends the decimal rendering of a signed value to `out`.
pub fn push_dec_int(out: &mut Vec<u8>, n: i64)
    ensures
        final(out)@ == old(out)@ + dec_int(n as int),
{
    if n >= 0 {
        push_dec(out, n as u64);
    } else {
        out.push(45);
        let m: u64 = ((-(n as i128)) as u64);
        push_dec(out, m);
        proof {
            assert(old(out)@ + dec_int(n as int) =~= (old(out)@.push(45u8)) + dec_digits(
                (-(n as int)) as nat,
            ));
        }
    }
}

/// Bytes of `"image_"`, the entry-name prefix.
pub open spec fn image_prefix() -> Seq<u8> {
    seq![105u8, 109u8, 97u8, 103u8, 101u8, 95u8]
}

/// Bytes of `".jpg"`, the entry-name extension.
pub open spec fn jpg_suffix() -> Seq<u8> {
    seq![46u8, 106u8, 112u8, 103u8]
}

/// Bytes of `".zip"`, the archive extension.
pub open spec fn zip_suffix() -> Seq<u8> {
    seq![46u8, 122u8, 105u8, 112u8]
}

/// Bytes of `"temp_"`, the scratch-area prefix.
pub open spec fn temp_prefix() -> Seq<u8> {
    seq![116u8, 101u8, 109u8, 112u8, 95u8]
}

/// Bytes of `"images_"`, the synthesized archive-name prefix.
pub open spec fn images_prefix() -> Seq<u8> {
    seq![105u8, 109u8, 97u8, 103u8, 101u8, 115u8, 95u8]
}

/// Bytes of `"_"`, the separator inside composed names.
pub open spec fn underscore() -> Seq<u8> {
    seq![95u8]
}

/// Bytes of `"https://api.telegram.org/file/bot"`, the download location prefix.
pub open spec fn url_prefix() -> Seq<u8> {
    seq![104u8, 116u8, 116u8, 112u8, 115u8, 58u8, 47u8, 47u8, 97u8, 112u8, 105u8, 46u8, 116u8, 101u8, 108u8, 101u8, 103u8, 114u8, 97u8, 109u8, 46u8, 111u8, 114u8, 103u8, 47u8, 102u8, 105u8, 108u8, 101u8, 47u8, 98u8, 111u8, 116u8]
}

/// Bytes of `"/"`, the separator inside the download location.
pub open spec fn slash() -> Seq<u8> {
    seq![47u8]
}

/// Appends `"image_"` to `out`.
pub fn push_image_prefix(out: &mut Vec<u8>)
    ensures
        final(out)@ == old(out)@ + image_prefix(),
{
    out.push(105);
    out.push(109);
    out.push(97);
    out.push(103);
    out.push(101);
    out.push(95);
    proof {
        assert(out@ =~= old(out)@ + image_prefix());
    }
}

/// Appends `".jpg"` to `out`.
pub fn push_jpg_suffix(out: &mut Vec<u8>)
    ensures
        final(out)@ == old(out)@ + jpg_suffix(),
{
    out.push(46);
    out.push(106);
    out.push(112);
    out.push(103);
    proof {
        assert(out@ =~= old(out)@ + jpg_suffix());
    }
}

/// Appends `".zip"` to `out`.
pub fn push_zip_suffix(out: &mut Vec<u8>)
    ensures
        final(out)@ == old(out)@ + zip_suffix(),
{
    out.push(46);
    out.push(122);
    out.push(105);
    out.push(112);
    proof {
        assert(out@ =~= old(out)@ + zip_suffix());
    }
}

/// Appends `"temp_"` to `out`.
pub fn push_temp_prefix(out: &mut Vec<u8>)
    ensures
        final(out)@ == old(out)@ + temp_prefix(),
{
    out.push(116);
    out.push(101);
    out.push(109);
    out.push(112);
    out.push(95);
    proof {
        assert(out@ =~= old(out)@ + temp_prefix());
    }
}

/// Appends `"images_"` to `out`.
pub fn push_images_prefix(out: &mut Vec<u8>)
    ensures
        final(out)@ == old(out)@ + images_prefix(),
{
    out.push(105);
    out.push(109);
    out.push(97);
    out.push(103);
    out.push(101);
    out.push(115);
    out.push(95);
    proof {
        assert(out@ =~= old(out)@ + images_prefix());
    }
}

/// Appends `"_"` to `out`.
pub fn push_underscore(out: &mut Vec<u8>)
    ensures
        final(out)@ == old(out)@ + underscore(),
{
    out.push(95);
    proof {
        assert(out@ =~= old(out)@ + underscore());
    }
}

/// Appends `"https://api.telegram.org/file/bot"` to `out`.
pub fn push_url_prefix(out: &mut Vec<u8>)
    ensures
        final(out)@ == old(out)@ + url_prefix(),
{
    out.push(104);
    out.push(116);
    out.push(116);
    out.push(112);
    out.push(115);
    out.push(58);
    out.push(47);
    out.push(47);
    out.push(97);
    out.push(112);
    out.push(105);
    out.push(46);
    out.push(116);
    out.push(101);
    out.push(108);
    out.push(101);
    out.push(103);
    out.push(114);
    out.push(97);
    out.push(109);
    out.push(46);
    out.push(111);
    out.push(114);
    out.push(103);
    out.push(47);
    out.push(102);
    out.push(105);
    out.push(108);
    out.push(101);
    out.push(47);
    out.push(98);
    out.push(111);
    out.push(116);
    proof {
        assert(out@ =~= old(out)@ + url_prefix());
    }
}

/// Appends `"/"` to `out`.
pub fn push_slash(out: &mut Vec<u8>)
    ensures
        final(out)@ == old(out)@ + slash(),
{
    out.push(47);
    proof {
        assert(out@ =~= old(out)@ + slash());
    }
}

/// Name of the archive entry holding the photo at position `i` of the
/// resolution order: `image_<i + 1>.jpg`.
pub open spec fn entry_name_spec(i: int) -> Seq<u8> {
    image_prefix() + dec_digits((i + 1) as nat) + jpg_suffix()
}

/// Renders the name of the `i`-th archive entry.
pub fn entry_name(i: usize) -> (r: Vec<u8>)
    requires
        i < usize::MAX,
    ensures
        r@ == entry_name_spec(i as int),
{
    let mut out: Vec<u8> = Vec::new();
    push_image_prefix(&mut out);
    push_dec(&mut out, (i + 1) as u64);
    push_jpg_suffix(&mut out);
    proof {
        assert(out@ =~= entry_name_spec(i as int));
    }
    out
}

/// Bytes of `"Processed "`, the confirmation prefix.
pub open spec fn processed_prefix() -> Seq<u8> {
    seq![80u8, 114u8, 111u8, 99u8, 101u8, 115u8, 115u8, 101u8, 100u8, 32u8]
}

/// Appends `"Processed "` to `out`.
pub fn push_processed_prefix(out: &mut Vec<u8>)
    ensures
        final(out)@ == old(out)@ + processed_prefix(),
{
    out.push(80);
    out.push(114);
    out.push(111);
    out.push(99);
    out.push(101);
    out.push(115);
    out.push(115);
    out.push(101);
    out.push(100);
    out.push(32);
    proof {
        assert(out@ =~= old(out)@ + processed_prefix());
    }
}

/// Bytes of `" photos, sending the archive..."`, the confirmation suffix.
pub open spec fn processed_suffix() -> Seq<u8> {
    seq![32u8, 112u8, 104u8, 111u8, 116u8, 111u8, 115u8, 44u8, 32u8, 115u8, 101u8, 110u8, 100u8, 105u8, 110u8, 103u8, 32u8, 116u8, 104u8, 101u8, 32u8, 97u8, 114u8, 99u8, 104u8, 105u8, 118u8, 101u8, 46u8, 46u8, 46u8]
}

/// Appends `" photos, sending the archive..."` to `out`.
pub fn push_processed_suffix(out: &mut Vec<u8>)
    ensures
        final(out)@ == old(out)@ + processed_suffix(),
{
    out.push(32);
    out.push(112);
    out.push(104);
    out.push(111);
    out.push(116);
    out.push(111);
    out.push(115);
    out.push(44);
    out.push(32);
    out.push(115);
    out.push(101);
    out.push(110);
    out.push(100);
    out.push(105);
    out.push(110);
    out.push(103);
    out.push(32);
    out.push(116);
    out.push(104);
    out.push(101);
    out.push(32);
    out.push(97);
    out.push(114);
    out.push(99);
    out.push(104);
    out.push(105);
    out.push(118);
    out.push(101);
    out.push(46);
    out.push(46);
    out.push(46);
    proof {
        assert(out@ =~= old(out)@ + processed_suffix());
    }
}

/// Name of the scratch area of one pipeline run: `temp_<chat>_<token>`,
/// unique across concurrent runs through the token.
pub open spec fn scratch_name_spec(chat: int, token: Seq<u8>) -> Seq<u8> {
    temp_prefix() + dec_int(chat) + underscore() + token
}

/// Renders the scratch-area name for a conversation and a token.
pub fn scratch_dir_name(chat: i64, token: &Vec<u8>) -> (r: Vec<u8>)
    ensures
        r@ == scratch_name_spec(chat as int, token@),
{
    let mut out: Vec<u8> = Vec::new();
    push_temp_prefix(&mut out);
    push_dec_int(&mut out, chat);
    push_underscore(&mut out);
    push_all(&mut out, token.as_slice());
    proof {
        assert(out@ =~= scratch_name_spec(chat as int, token@));
    }
    out
}

/// The archive file name: the user-chosen base name with the archive
/// extension when one is pending, otherwise a name synthesized from the
/// timestamp and the conversation identifier.
pub open spec fn archive_name_spec(name: Option<Seq<u8>>, ts: Seq<u8>, chat: int) -> Seq<u8> {
    match name {
        Some(n) => n + zip_suffix(),
        None => images_prefix() + ts + underscore() + dec_int(chat) + zip_suffix(),
    }
}

/// Renders the archive file name from an optional base name, a rendered
/// timestamp and the conversation identifier.
pub fn archive_file_name(name: &Option<Vec<u8>>, ts: &Vec<u8>, chat: i64) -> (r: Vec<u8>)
    ensures
        r@ == archive_name_spec(
            match name {
                Some(n) => Some(n@),
                None => None,
            },
            ts@,
            chat as int,
        ),
{
    let mut out: Vec<u8> = Vec::new();
    match name {
        Some(n) => {
            push_all(&mut out, n.as_slice());
            push_zip_suffix(&mut out);
        },
        None => {
            push_images_prefix(&mut out);
            push_all(&mut out, ts.as_slice());
            push_underscore(&mut out);
            push_dec_int(&mut out, chat);
            push_zip_suffix(&mut out);
        },
    }
    proof {
        assert(out@ =~= archive_name_spec(
            match name {
                Some(n) => Some(n@),
                None => None,
            },
            ts@,
            chat as int,
        ));
    }
    out
}

/// The location a resolved resource path is downloaded from:
/// the fixed prefix, the bot token, a slash and the resolved path.
pub open spec fn download_url_spec(token: Seq<u8>, path: Seq<u8>) -> Seq<u8> {
    url_prefix() + token + slash() + path
}

/// Renders the download location of one resolved resource.
pub fn download_url(token: &Vec<u8>, path: &Vec<u8>) -> (r: Vec<u8>)
    ensures
        r@ == download_url_spec(token@, path@),
{
    let mut out: Vec<u8> = Vec::new();
    push_url_prefix(&mut out);
    push_all(&mut out, token.as_slice());
    push_slash(&mut out);
    push_all(&mut out, path.as_slice());
    proof {
        assert(out@ =~= download_url_spec(token@, path@));
    }
    out
}

/// The confirmation sent before the archive: `Processed <n> photos,
/// sending the archive...`, citing the photo count.
pub open spec fn processed_text_spec(n: nat) -> Seq<u8> {
    processed_prefix() + dec_digits(n) + processed_suffix()
}

/// Renders the confirmation text citing the photo count.
pub fn processed_text(n: u64) -> (r: Vec<u8>)
    ensures
        r@ == processed_text_spec(n as nat),
{
    let mut out: Vec<u8> = Vec::new();
    push_processed_prefix(&mut out);
    push_dec(&mut out, n);
    push_processed_suffix(&mut out);
    proof {
        assert(out@ =~= processed_text_spec(n as nat));
    }
    out
}

/// Relies on `uuid::Uuid::new_v4` and its `Display` rendering: a freshly
/// drawn random identifier in hyphenated lowercase-hex form, 36 ASCII
/// bytes. The value is random, so nothing is promised beyond its shape.
#[verifier::external_body]
fn fresh_token_raw() -> (r: Vec<u8>)
    ensures
        r@.len() == 36,
        forall|i: int|
            0 <= i < r@.len() ==> (#[trigger] r@[i] == 45 || (48 <= r@[i] <= 57) || (97 <= r@[i]
                <= 102)),
{
    uuid::Uuid::new_v4().to_string().into_bytes()
}

/// Names a fresh scratch area for one run of the pipeline of `chat`:
/// `temp_<chat>_<token>` with a freshly drawn 36-byte token.
pub fn fresh_scratch_dir_name(chat: i64) -> (r: Vec<u8>)
    ensures
        exists|token: Seq<u8>|
            token.len() == 36 && r@ == scratch_name_spec(chat as int, token),
{
    let token = fresh_token_raw();
    scratch_dir_name(chat, &token)
}

/// Relies on `chrono::Local::now` and `DateTime::format` with the pattern
/// `%Y-%m-%d:%H:%M`: the current local wall-clock time, rendered. The
/// value depends on the clock, so nothing is promised of it.
#[verifier::external_body]
fn local_timestamp_raw() -> (r: Vec<u8>)
    ensures
        r@.len() > 0,
{
    chrono::Local::now().format("%Y-%m-%d:%H:%M").to_string().into_bytes()
}

/// The archive file name for a batch, synthesizing one from the current
/// time when no base name is pending.
pub fn archive_file_name_now(name: &Option<Vec<u8>>, chat: i64) -> (r: Vec<u8>)
    ensures
        name matches Some(n) ==> r@ == archive_name_spec(Some(n@), Seq::empty(), chat as int),
        name is None ==> exists|ts: Seq<u8>|
            ts.len() > 0 && r@ == archive_name_spec(None, ts, chat as int),
{
    let ts = local_timestamp_raw();
    archive_file_name(name, &ts, chat)
}

} // verus!
