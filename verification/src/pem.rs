//! Certificate chains in PEM form.

use vstd::prelude::*;

use crate::error;
use crate::error::Error;
use crate::text;

verus! {

/// The line that starts a certificate.
pub const BEGIN_CERTIFICATE: &'static str = "-----BEGIN CERTIFICATE-----";

/// The line that ends a certificate.
pub const END_CERTIFICATE: &'static str = "-----END CERTIFICATE-----";

/// The certificates that some lines end, behind the first start of a certificate, and what there is
/// already of a certificate that they do not end.
pub open spec fn certificates_in(lines: Seq<Seq<char>>) -> Result<
    (Seq<Seq<char>>, Seq<char>),
    Seq<Seq<char>>,
>
    decreases lines.len(),
{
    if lines.len() == 0 {
        Ok((seq![], seq![]))
    } else {
        match certificates_in(lines.drop_last()) {
            Err(err) => Err(err),
            Ok((certificates, current)) => if lines.last() == END_CERTIFICATE@ {
                Ok((certificates.push(current), seq![]))
            } else if lines.last() == BEGIN_CERTIFICATE@ {
                if current.len() > 0 {
                    Err(
                        error::message(
                            "malformed PEM: BEGIN CERTIFICATE without prior END CERTIFICATE"@,
                        ),
                    )
                } else {
                    Ok((certificates, current))
                }
            } else {
                Ok((certificates, current + lines.last()))
            },
        }
    }
}

/// The certificates of a chain, each as the base64 text between its start and its end.
pub open spec fn certificates_of_lines(lines: Seq<Seq<char>>) -> Result<
    Seq<Seq<char>>,
    Seq<Seq<char>>,
> {
    if lines.len() == 0 || lines[0] != BEGIN_CERTIFICATE@ {
        Err(error::message("malformed PEM: does not start with BEGIN CERTIFICATE"@))
    } else {
        match certificates_in(lines.skip(1)) {
            Err(err) => Err(err),
            Ok((certificates, current)) => if current.len() > 0 {
                Err(
                    error::message(
                        "malformed PEM: BEGIN CERTIFICATE without corresponding END CERTIFICATE"@,
                    ),
                )
            } else {
                Ok(certificates)
            },
        }
    }
}

/// The certificates of a chain, each as the base64 text between its start and its end.
pub open spec fn certificates(chain: Seq<char>) -> Result<Seq<Seq<char>>, Seq<Seq<char>>> {
    certificates_of_lines(text::lines(chain))
}

/// Some lines do not make up for what is wrong with the lines before them.
proof fn lemma_error_stays(lines: Seq<Seq<char>>, n: int)
    requires
        0 <= n <= lines.len(),
        certificates_in(lines.take(n)) is Err,
    ensures
        certificates_in(lines) == certificates_in(lines.take(n)),
    decreases lines.len() - n,
{
    if n == lines.len() {
        assert(lines.take(n) =~= lines);
    } else {
        assert(lines.take(n + 1).drop_last() =~= lines.take(n));
        lemma_error_stays(lines, n + 1);
    }
}

/// Splits a chain into its certificates.
pub fn split(chain: &str) -> (r: Result<Vec<String>, Error>)
    ensures
        match r {
            Ok(split) => certificates(chain@) == Ok::<Seq<Seq<char>>, Seq<Seq<char>>>(
                text::texts(split@),
            ),
            Err(err) => certificates(chain@) == Err::<Seq<Seq<char>>, Seq<Seq<char>>>(err@),
        },
{
    let lines = text::split_lines(chain);
    let ghost all = text::lines(chain@);
    if lines.len() == 0 || !text::str_eq(lines[0].as_str(), BEGIN_CERTIFICATE) {
        assert(lines@.len() > 0 ==> all[0] == lines@[0]@);
        return Err(Error::new("malformed PEM: does not start with BEGIN CERTIFICATE"));
    }
    let ghost rest = all.skip(1);
    assert(all[0] == lines@[0]@);
    let mut certificates: Vec<String> = Vec::new();
    let mut current = String::new();
    assert(text::texts(certificates@) =~= seq![]);
    assert(current@ =~= seq![]);
    for i in 1..lines.len()
        invariant
            text::texts(lines@) == all,
            all == text::lines(chain@),
            all.len() > 0,
            all[0] == BEGIN_CERTIFICATE@,
            rest == all.skip(1),
            certificates_in(rest.take(i - 1)) == Ok::<
                (Seq<Seq<char>>, Seq<char>),
                Seq<Seq<char>>,
            >((text::texts(certificates@), current@)),
    {
        let ghost up_to = rest.take(i as int);
        assert(up_to.drop_last() =~= rest.take(i - 1));
        assert(up_to.last() == lines@[i as int]@);
        let line = lines[i].as_str();
        if text::str_eq(line, END_CERTIFICATE) {
            let ghost before = certificates@;
            certificates.push(current);
            assert(text::texts(certificates@) =~= text::texts(before).push(current@));
            current = String::new();
            assert(current@ =~= seq![]);
        } else if text::str_eq(line, BEGIN_CERTIFICATE) {
            if !current.as_str().is_empty() {
                proof {
                    lemma_error_stays(rest, i as int);
                }
                return Err(
                    Error::new("malformed PEM: BEGIN CERTIFICATE without prior END CERTIFICATE"),
                );
            }
        } else {
            current.append(line);
        }
    }
    assert(rest.take(rest.len() as int) =~= rest);
    if !current.as_str().is_empty() {
        return Err(
            Error::new("malformed PEM: BEGIN CERTIFICATE without corresponding END CERTIFICATE"),
        );
    }
    Ok(certificates)
}

/// Some lines, each with its end.
pub open spec fn text_of_lines(lines: Seq<Seq<char>>) -> Seq<char>
    decreases lines.len(),
{
    if lines.len() == 0 {
        seq![]
    } else {
        text_of_lines(lines.drop_last()) + lines.last().push('\n')
    }
}

/// Whether a text can be a line of its own.
pub open spec fn is_line(line: Seq<char>) -> bool {
    !line.contains('\n') && (line.len() > 0 ==> line.last() != '\r')
}

/// Whether a text can be a line of a certificate, between its start and its end.
pub open spec fn is_body_line(line: Seq<char>) -> bool {
    is_line(line) && line != BEGIN_CERTIFICATE@ && line != END_CERTIFICATE@
}

/// The lines of a certificate.
pub open spec fn certificate_lines(body: Seq<Seq<char>>) -> Seq<Seq<char>> {
    seq![BEGIN_CERTIFICATE@] + body + seq![END_CERTIFICATE@]
}

/// The lines of a chain.
pub open spec fn chain_lines(bodies: Seq<Seq<Seq<char>>>) -> Seq<Seq<char>>
    decreases bodies.len(),
{
    if bodies.len() == 0 {
        seq![]
    } else {
        chain_lines(bodies.drop_last()) + certificate_lines(bodies.last())
    }
}

/// Some texts, one behind the other.
pub open spec fn joined(parts: Seq<Seq<char>>) -> Seq<char>
    decreases parts.len(),
{
    if parts.len() == 0 {
        seq![]
    } else {
        joined(parts.drop_last()) + parts.last()
    }
}

/// The lines of a text that was made of lines are those lines.
proof fn lemma_lines_of_text(lines: Seq<Seq<char>>)
    requires
        forall|i: int| 0 <= i < lines.len() ==> is_line(#[trigger] lines[i]),
    ensures
        text::ended_lines(text_of_lines(lines)) == (lines, Seq::<char>::empty()),
    decreases lines.len(),
{
    if lines.len() == 0 {
        assert(lines =~= seq![]);
    } else {
        let before = lines.drop_last();
        assert forall|i: int| 0 <= i < before.len() implies is_line(#[trigger] before[i]) by {
            assert(before[i] == lines[i]);
        }
        lemma_lines_of_text(before);
        assert(is_line(lines[lines.len() - 1]));
        text::lemma_ended_lines_line(text_of_lines(before), lines.last());
        assert(before.push(lines.last()) =~= lines);
    }
}

/// What a certificate adds to the certificates before it.
proof fn lemma_one_more_certificate(
    lines: Seq<Seq<char>>,
    found: Seq<Seq<char>>,
    body: Seq<Seq<char>>,
)
    requires
        certificates_in(lines) == Ok::<(Seq<Seq<char>>, Seq<char>), Seq<Seq<char>>>(
            (found, Seq::<char>::empty()),
        ),
        forall|i: int| 0 <= i < body.len() ==> is_body_line(#[trigger] body[i]),
    ensures
        certificates_in(lines + body) == Ok::<(Seq<Seq<char>>, Seq<char>), Seq<Seq<char>>>(
            (found, joined(body)),
        ),
        certificates_in(lines + body + seq![END_CERTIFICATE@]) == Ok::<
            (Seq<Seq<char>>, Seq<char>),
            Seq<Seq<char>>,
        >((found.push(joined(body)), Seq::<char>::empty())),
    decreases body.len(),
{
    if body.len() == 0 {
        assert(lines + body =~= lines);
    } else {
        let before = body.drop_last();
        assert forall|i: int| 0 <= i < before.len() implies is_body_line(#[trigger] before[i]) by {
            assert(before[i] == body[i]);
        }
        lemma_one_more_certificate(lines, found, before);
        assert((lines + body).drop_last() =~= lines + before);
        assert(is_body_line(body[body.len() - 1]));
    }
    let ended = lines + body + seq![END_CERTIFICATE@];
    assert(ended.drop_last() =~= lines + body);
}

/// The certificates in the lines of a chain, behind its first line.
proof fn lemma_chain(bodies: Seq<Seq<Seq<char>>>)
    requires
        bodies.len() > 0,
        forall|i: int, j: int|
            0 <= i < bodies.len() && 0 <= j < bodies[i].len() ==> is_body_line(
                #[trigger] bodies[i][j],
            ),
    ensures
        chain_lines(bodies).len() > 0,
        chain_lines(bodies)[0] == BEGIN_CERTIFICATE@,
        certificates_in(chain_lines(bodies).skip(1)) == Ok::<
            (Seq<Seq<char>>, Seq<char>),
            Seq<Seq<char>>,
        >((bodies.map_values(|body: Seq<Seq<char>>| joined(body)), Seq::<char>::empty())),
        forall|i: int|
            0 <= i < chain_lines(bodies).len() ==> is_line(#[trigger] chain_lines(bodies)[i]),
    decreases bodies.len(),
{
    let before = bodies.drop_last();
    let body = bodies.last();
    let lines = chain_lines(bodies);
    let found = before.map_values(|body: Seq<Seq<char>>| joined(body));
    assert forall|j: int| 0 <= j < body.len() implies is_body_line(#[trigger] body[j]) by {
        assert(bodies[bodies.len() - 1][j] == body[j]);
    }
    lemma_markers_are_lines();
    assert(bodies.map_values(|body: Seq<Seq<char>>| joined(body)) =~= found.push(joined(body)));
    if before.len() == 0 {
        reveal_with_fuel(chain_lines, 2);
        assert(lines =~= certificate_lines(body));
        let none = Seq::<Seq<char>>::empty();
        assert(found =~= none);
        lemma_one_more_certificate(none, none, body);
        assert(lines.skip(1) =~= none + body + seq![END_CERTIFICATE@]);
    } else {
        assert forall|i: int, j: int|
            0 <= i < before.len() && 0 <= j < before[i].len() implies is_body_line(
            #[trigger] before[i][j],
        ) by {
            assert(before[i][j] == bodies[i][j]);
        }
        lemma_chain(before);
        let old_lines = chain_lines(before).skip(1);
        let started = old_lines.push(BEGIN_CERTIFICATE@);
        lemma_markers_differ();
        assert(started.drop_last() =~= old_lines);
        lemma_one_more_certificate(started, found, body);
        assert(lines.skip(1) =~= started + body + seq![END_CERTIFICATE@]);
    }
    assert forall|i: int| 0 <= i < lines.len() implies is_line(#[trigger] lines[i]) by {
        let n = chain_lines(before).len() as int;
        if i < n {
            assert(lines[i] == chain_lines(before)[i]);
        } else if i == n {
            assert(lines[i] == BEGIN_CERTIFICATE@);
        } else if i <= n + body.len() {
            assert(lines[i] == body[i - n - 1]);
            assert(is_body_line(body[i - n - 1]));
        } else {
            assert(lines[i] == END_CERTIFICATE@);
        }
    }
}

/// The start and the end of a certificate are lines.
proof fn lemma_markers_are_lines()
    ensures
        is_line(BEGIN_CERTIFICATE@),
        is_line(END_CERTIFICATE@),
{
    reveal_strlit("-----BEGIN CERTIFICATE-----");
    reveal_strlit("-----END CERTIFICATE-----");
}

/// The start of a certificate is not the end of one.
proof fn lemma_markers_differ()
    ensures
        BEGIN_CERTIFICATE@ != END_CERTIFICATE@,
{
    reveal_strlit("-----BEGIN CERTIFICATE-----");
    reveal_strlit("-----END CERTIFICATE-----");
    assert(BEGIN_CERTIFICATE@.len() == 27);
    assert(END_CERTIFICATE@.len() == 25);
}

/// Splitting a chain gives back the certificates that it was written from: the texts between their
/// starts and their ends, without the line ends.
pub proof fn splitting_undoes_writing(bodies: Seq<Seq<Seq<char>>>)
    requires
        bodies.len() > 0,
        forall|i: int, j: int|
            0 <= i < bodies.len() && 0 <= j < bodies[i].len() ==> is_body_line(
                #[trigger] bodies[i][j],
            ),
    ensures
        certificates(text_of_lines(chain_lines(bodies))) == Ok::<Seq<Seq<char>>, Seq<Seq<char>>>(
            bodies.map_values(|body: Seq<Seq<char>>| joined(body)),
        ),
{
    lemma_chain(bodies);
    lemma_lines_of_text(chain_lines(bodies));
}

/// The texts of two runs of parts, one behind the other, make up the text of all of them, and one part is a
/// text of its own.
pub proof fn parts_are_joined_in_order(a: Seq<Seq<char>>, b: Seq<Seq<char>>)
    ensures
        joined(a + b) == joined(a) + joined(b),
        a.len() == 1 ==> joined(a) == a[0],
        a.len() == 0 ==> joined(a).len() == 0,
    decreases b.len(),
{
    reveal_with_fuel(joined, 2);
    if b.len() == 0 {
        assert(a + b =~= a);
    } else {
        parts_are_joined_in_order(a, b.drop_last());
        assert((a + b).drop_last() =~= a + b.drop_last());
        assert((a + b).last() == b.last());
        assert(joined(a + b) =~= joined(a) + joined(b));
    }
    if a.len() == 1 {
        assert(joined(a) =~= a[0]);
    }
}

/// A chain is written certificate by certificate, each between the lines that start it and end it.
pub proof fn a_chain_is_written_certificate_by_certificate(
    bodies: Seq<Seq<Seq<char>>>,
    body: Seq<Seq<char>>,
)
    ensures
        chain_lines(bodies.push(body)) == chain_lines(bodies) + seq!["-----BEGIN CERTIFICATE-----"@] + body
            + seq!["-----END CERTIFICATE-----"@],
        chain_lines(Seq::<Seq<Seq<char>>>::empty()).len() == 0,
{
    assert(bodies.push(body).drop_last() =~= bodies);
    assert(chain_lines(bodies.push(body)) =~= chain_lines(bodies) + seq!["-----BEGIN CERTIFICATE-----"@]
        + body + seq!["-----END CERTIFICATE-----"@]);
}

/// A text is written line by line, each with a line feed behind it.
pub proof fn a_text_is_written_line_by_line(lines: Seq<Seq<char>>, line: Seq<char>)
    ensures
        text_of_lines(lines.push(line)) == text_of_lines(lines) + line + seq!['\n'],
        text_of_lines(Seq::<Seq<char>>::empty()).len() == 0,
{
    assert(lines.push(line).drop_last() =~= lines);
    assert(text_of_lines(lines.push(line)) =~= text_of_lines(lines) + line + seq!['\n']);
}

/// A chain that does not start with the start of a certificate is refused, and so is one that starts a
/// certificate within another one, or that stops within one.
pub proof fn a_broken_chain_is_refused(
    lines: Seq<Seq<char>>,
    bodies: Seq<Seq<Seq<char>>>,
    body: Seq<Seq<char>>,
    rest: Seq<Seq<char>>,
)
    requires
        forall|i: int, j: int|
            0 <= i < bodies.len() && 0 <= j < bodies[i].len() ==> is_body_line(
                #[trigger] bodies[i][j],
            ),
        forall|i: int| 0 <= i < body.len() ==> is_body_line(#[trigger] body[i]),
        joined(body).len() > 0,
    ensures
        lines.len() == 0 || lines[0] != "-----BEGIN CERTIFICATE-----"@ ==> certificates_of_lines(lines)
            == Err::<Seq<Seq<char>>, Seq<Seq<char>>>(
            seq!["malformed PEM: does not start with BEGIN CERTIFICATE"@],
        ),
        certificates_of_lines(chain_lines(bodies) + seq!["-----BEGIN CERTIFICATE-----"@] + body) == Err::<
            Seq<Seq<char>>,
            Seq<Seq<char>>,
        >(seq!["malformed PEM: BEGIN CERTIFICATE without corresponding END CERTIFICATE"@]),
        certificates_of_lines(
            chain_lines(bodies) + seq!["-----BEGIN CERTIFICATE-----"@] + body + seq![
                "-----BEGIN CERTIFICATE-----"@,
            ] + rest,
        ) == Err::<Seq<Seq<char>>, Seq<Seq<char>>>(
            seq!["malformed PEM: BEGIN CERTIFICATE without prior END CERTIFICATE"@],
        ),
{
    let begin = seq![BEGIN_CERTIFICATE@];
    let whole = chain_lines(bodies) + begin;
    let started = whole.skip(1);
    lemma_markers_differ();
    if bodies.len() > 0 {
        lemma_chain(bodies);
        assert(whole.skip(1) =~= chain_lines(bodies).skip(1) + begin);
        assert(started.drop_last() =~= chain_lines(bodies).skip(1));
        assert(started.last() == BEGIN_CERTIFICATE@);
    } else {
        assert(started =~= seq![]);
    }
    let found = bodies.map_values(|body: Seq<Seq<char>>| joined(body));
    assert(certificates_in(started) == Ok::<(Seq<Seq<char>>, Seq<char>), Seq<Seq<char>>>(
        (found, Seq::<char>::empty()),
    )) by {
        if bodies.len() == 0 {
            assert(found =~= seq![]);
        }
    }
    lemma_one_more_certificate(started, found, body);
    assert((whole + body).skip(1) =~= started + body);
    assert((whole + body)[0] == BEGIN_CERTIFICATE@);
    let twice = whole + body + begin + rest;
    let inner = twice.skip(1);
    let n = started.len() + body.len() + 1;
    assert(inner.take(n as int) =~= (started + body).push(BEGIN_CERTIFICATE@));
    assert((started + body).push(BEGIN_CERTIFICATE@).drop_last() =~= started + body);
    lemma_error_stays(inner, n as int);
    assert(twice[0] == BEGIN_CERTIFICATE@);
}

} // verus!
