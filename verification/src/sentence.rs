//! Canned chat sentences, picked by index or at random.
use vstd::prelude::*;
use rand::seq::IndexedRandom;
use crate::command::CommandError;
use crate::text::{command_args, parse_usize, parse_usize_spec, read_args, word_is, word_views};

verus! {

/// What is answered when there is no sentence to give.
pub const NO_SENTENCE: &'static str = "nenhuma frase disponível.";

/// What is answered to a name that has no sentences.
pub const UNKNOWN_COMMAND: &'static str = "comando desconhecido.";

/// The contents of a list of sentences.
pub open spec fn sentence_views(sentences: Seq<&str>) -> Seq<Seq<char>> {
    sentences.map_values(|s: &str| s@)
}

/// Whether `r` is a possible answer when asking `sentences` for `index`: the
/// sentence at that index; the first sentence when the index is out of range;
/// any sentence when no index is given; `NO_SENTENCE` when there is none.
pub open spec fn selects(sentences: Seq<Seq<char>>, index: Option<usize>, r: Seq<char>) -> bool {
    match index {
        Some(i) => r == (if i < sentences.len() {
            sentences[i as int]
        } else if sentences.len() > 0 {
            sentences[0]
        } else {
            NO_SENTENCE@
        }),
        None => if sentences.len() == 0 {
            r == NO_SENTENCE@
        } else {
            &&& exists|k: int| 0 <= k < sentences.len() && r == sentences[k]
            &&& drawn_from(sentences, r)
        },
    }
}

/// Picks one of `sentences` at random with `IndexedRandom::choose` and the
/// thread-local generator `rand::rng()`. Trusted: the result is one of the
/// sentences, and there is none exactly when the list is empty; which one
/// comes back is left open.
#[verifier::external_body]
pub(crate) fn choose_sentence<'a>(sentences: &[&'a str]) -> (r: Option<&'a str>)
    ensures
        r is None <==> sentences@.len() == 0,
        r matches Some(s) ==> exists|k: int| 0 <= k < sentences@.len() && sentences@[k]@ == s@,
{
    let mut rng = rand::rng();
    sentences.choose(&mut rng).copied()
}

/// Whether `drawn` is a value that the random pick over `sentences` can hand back.
pub closed spec fn drawn_by_chooser(sentences: &[&str], drawn: Option<&str>) -> bool {
    call_ensures(choose_sentence, (sentences,), drawn)
}

/// Whether `r` is a sentence that the random pick drew from a list holding
/// the sentences `list`.
pub open spec fn drawn_from(list: Seq<Seq<char>>, r: Seq<char>) -> bool {
    exists|sl: &[&str], s: &str|
        #[trigger] drawn_by_chooser(sl, Some(s)) && sentence_views(sl@) == list && r == s@
}

/// The answer for `index`, given what a random pick returned (`random` is
/// used only when no index is given).
pub fn pick_sentence(sentences: &[&str], index: Option<usize>, random: Option<&str>) -> (r:
    String)
    ensures
        r@ == match index {
            Some(i) => if i < sentences@.len() {
                sentences@[i as int]@
            } else if sentences@.len() > 0 {
                sentences@[0]@
            } else {
                NO_SENTENCE@
            },
            None => match random {
                Some(s) => s@,
                None => NO_SENTENCE@,
            },
        },
{
    let sentence: &str = match index {
        Some(i) => {
            if i < sentences.len() {
                sentences[i]
            } else if sentences.len() > 0 {
                sentences[0]
            } else {
                NO_SENTENCE
            }
        },
        None => match random {
            Some(s) => s,
            None => NO_SENTENCE,
        },
    };
    sentence.to_owned()
}

/// The sentence at `index` of `sentences`, or a random one when no index is given.
pub fn select_sentence(sentences: &[&str], index: Option<usize>) -> (r: String)
    ensures
        selects(sentence_views(sentences@), index, r@),
{
    let random = match index {
        Some(_) => None,
        None => choose_sentence(sentences),
    };
    let r = pick_sentence(sentences, index, random);
    proof {
        if index is None && sentences@.len() > 0 {
            let k = choose|k: int| 0 <= k < sentences@.len() && sentences@[k]@ == random->0@;
            assert(sentence_views(sentences@)[k] == r@);
            assert(drawn_by_chooser(sentences, Some(random->0)));
            assert(drawn_from(sentence_views(sentences@), r@));
        }
    }
    r
}

/// Thyria's sentences.
pub open spec fn thyria_sentences() -> Seq<Seq<char>> {
    seq![
        "não me tira, não me tira GlitchNRG"@,
        "antes que eu me esqueça, vai tomar no cool raissa11RaiBRAVA"@,
        "você é muito ruim, podre, lixo raissa11Faquinha"@,
        "vai tomando raissa11NEA"@,
        "certeza que sua mãe usa saia Kappa"@,
        "beijos da tia Thy 🥰"@,
        "MANO, VOCÊ SABE QUE TEM 4 GEN UP SEU FILHO DA PULGA raissa11RaiBRAVA"@,
        "vai dar meia hora com relógio parado 🤭"@,
        "vai taca taca taca 🎶"@,
        "bom dia senhora raissa112anosdecanal"@,
        "eu sou uma rata senhoraa raissa11RAI"@,
        "sua mãe toma banho em pé CoolCat"@,
        "sua mãe dorme deitada NotLikeThis"@,
        "sua mãe nasceu pelada BabyRage"@,
        "vem meu casquinha de bala KomodoHype"@,
        "eu te batizo em nome de Jane Romero FBBlock"@,
        "toma então, batizado PowerUpR"@,
        "bruxa, fedida, tomara que te dor de barriga 🎶"@,
    ]
}

/// Jonh Sullivan's sentences.
pub open spec fn jonhsullivan_sentences() -> Seq<Seq<char>> {
    seq![
        "seven minutes is all I can spare to play with you."@,
        "poor performance indeed."@,
        "you disappoint me. Is that the best you`ve got?"@,
        "is that all you have?"@,
        "o poderoso Nemesis."@,
        "main killer safado."@,
    ]
}

/// One of Thyria's sentences: the one at `index`, the first when `index` is
/// out of range, a random one when no index is given.
pub fn get_sentence_thyria(index: Option<usize>) -> (r: String)
    ensures
        selects(thyria_sentences(), index, r@),
{
    let sentences: Vec<&str> = vec![
        "não me tira, não me tira GlitchNRG",
        "antes que eu me esqueça, vai tomar no cool raissa11RaiBRAVA",
        "você é muito ruim, podre, lixo raissa11Faquinha",
        "vai tomando raissa11NEA",
        "certeza que sua mãe usa saia Kappa",
        "beijos da tia Thy 🥰",
        "MANO, VOCÊ SABE QUE TEM 4 GEN UP SEU FILHO DA PULGA raissa11RaiBRAVA",
        "vai dar meia hora com relógio parado 🤭",
        "vai taca taca taca 🎶",
        "bom dia senhora raissa112anosdecanal",
        "eu sou uma rata senhoraa raissa11RAI",
        "sua mãe toma banho em pé CoolCat",
        "sua mãe dorme deitada NotLikeThis",
        "sua mãe nasceu pelada BabyRage",
        "vem meu casquinha de bala KomodoHype",
        "eu te batizo em nome de Jane Romero FBBlock",
        "toma então, batizado PowerUpR",
        "bruxa, fedida, tomara que te dor de barriga 🎶",
    ];
    assert(sentence_views(sentences@) =~= thyria_sentences());
    select_sentence(sentences.as_slice(), index)
}

/// One of Jonh Sullivan's sentences: the one at `index`, the first when
/// `index` is out of range, a random one when no index is given.
pub fn get_sentence_jonhsullivan(index: Option<usize>) -> (r: String)
    ensures
        selects(jonhsullivan_sentences(), index, r@),
{
    let sentences: Vec<&str> = vec![
        "seven minutes is all I can spare to play with you.",
        "poor performance indeed.",
        "you disappoint me. Is that the best you`ve got?",
        "is that all you have?",
        "o poderoso Nemesis.",
        "main killer safado.",
    ];
    assert(sentence_views(sentences@) =~= jonhsullivan_sentences());
    select_sentence(sentences.as_slice(), index)
}

/// The index a sentence request carries: its second word read as a `usize`, if it is one.
pub open spec fn index_of(args: Seq<Seq<char>>) -> Option<usize> {
    if args.len() > 1 {
        parse_usize_spec(args[1])
    } else {
        None
    }
}

/// Whether `r` is a possible answer to the request words `args`.
pub open spec fn answers(args: Seq<Seq<char>>, r: Seq<char>) -> bool {
    let index = index_of(args);
    if args[0] == "thyria"@ {
        selects(thyria_sentences(), index, r)
    } else if args[0] == "jonhsullivan"@ {
        selects(jonhsullivan_sentences(), index, r)
    } else {
        r == UNKNOWN_COMMAND@
    }
}

/// The answer to the request words `args`: a sentence of the person the first
/// word names, chosen by the index in the second word.
pub fn sentence_for_args(args: &Vec<Vec<char>>) -> (r: String)
    requires
        args@.len() >= 1,
    ensures
        answers(word_views(args@), r@),
{
    let index: Option<usize> = if args.len() > 1 {
        parse_usize(&args[1])
    } else {
        None
    };
    if word_is(&args[0], "thyria") {
        get_sentence_thyria(index)
    } else if word_is(&args[0], "jonhsullivan") {
        get_sentence_jonhsullivan(index)
    } else {
        UNKNOWN_COMMAND.to_owned()
    }
}

/// The answer to the sentence request `name` (for example `thyria 3`): refused
/// when it holds no word.
pub fn get_sentence(name: &str) -> (r: Result<String, CommandError>)
    ensures
        command_args(name@).len() == 0 <==> r == Err::<String, CommandError>(
            CommandError::MissingCommand,
        ),
        r matches Ok(s) ==> answers(command_args(name@), s@),
{
    let args = read_args(name);
    if args.len() == 0 {
        return Err(CommandError::MissingCommand);
    }
    Ok(sentence_for_args(&args))
}

/// What a sentence answer is: with an index in range, the sentence at that
/// index; with an index out of range, the first sentence; with no index, the
/// sentence that the random pick drew from the list (one of the list); and
/// `NO_SENTENCE` when the list is empty.
pub proof fn law_sentence_answers(sentences: Seq<Seq<char>>, index: Option<usize>, r: Seq<char>)
    requires
        selects(sentences, index, r),
    ensures
        sentences.len() == 0 ==> r == NO_SENTENCE@,
        index matches Some(i) ==> (i < sentences.len() ==> r == sentences[i as int]),
        index matches Some(i) ==> (i >= sentences.len() && sentences.len() > 0 ==> r
            == sentences[0]),
        index is None && sentences.len() > 0 ==> {
            &&& drawn_from(sentences, r)
            &&& exists|k: int| 0 <= k < sentences.len() && r == sentences[k]
        },
{
}

} // verus!
