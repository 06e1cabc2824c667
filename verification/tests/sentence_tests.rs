use stream_api::command::CommandError;
use stream_api::sentence::{
    get_sentence, get_sentence_jonhsullivan, get_sentence_thyria, pick_sentence, select_sentence,
    sentence_for_args, NO_SENTENCE, UNKNOWN_COMMAND,
};

const THYRIA: [&str; 18] = [
    "não me tira, não me tira GlitchNRG",
    "antes que eu me esqueça, vai tomar no cool raissa11RaiBRAVA",
    "você é muito ruim, podre, lixo raissa11Faquinha",
    "vai tomando raissa11NEA",
    "certeza que sua mãe usa saia Kappa",
    "beijos da tia Thy 🥰",
    "MANO, VOCÊ SABE QUE TEM 4 GEN UP SEU FILHO DA PULGA raissa11RaiBRAVA",
    "vai dar meia hora com relógio parado 🤭",
    "vai taca taca taca 🎶",
    "bom dia senhora raissa112anosdecanal",
    "eu sou uma rata senhoraa raissa11RAI",
    "sua mãe toma banho em pé CoolCat",
    "sua mãe dorme deitada NotLikeThis",
    "sua mãe nasceu pelada BabyRage",
    "vem meu casquinha de bala KomodoHype",
    "eu te batizo em nome de Jane Romero FBBlock",
    "toma então, batizado PowerUpR",
    "bruxa, fedida, tomara que te dor de barriga 🎶",
];

const JONH: [&str; 6] = [
    "seven minutes is all I can spare to play with you.",
    "poor performance indeed.",
    "you disappoint me. Is that the best you`ve got?",
    "is that all you have?",
    "o poderoso Nemesis.",
    "main killer safado.",
];

#[test]
fn thyria_by_index() {
    for (i, s) in THYRIA.iter().enumerate() {
        assert_eq!(get_sentence_thyria(Some(i)), *s);
    }
}

#[test]
fn thyria_out_of_range_gives_first() {
    assert_eq!(get_sentence_thyria(Some(18)), THYRIA[0]);
    assert_eq!(get_sentence_thyria(Some(usize::MAX)), THYRIA[0]);
}

#[test]
fn thyria_random_is_one_of_hers() {
    for _ in 0..50 {
        let s = get_sentence_thyria(None);
        assert!(THYRIA.contains(&s.as_str()));
    }
}

#[test]
fn jonhsullivan_by_index_and_random() {
    for (i, s) in JONH.iter().enumerate() {
        assert_eq!(get_sentence_jonhsullivan(Some(i)), *s);
    }
    assert_eq!(get_sentence_jonhsullivan(Some(6)), JONH[0]);
    for _ in 0..20 {
        let s = get_sentence_jonhsullivan(None);
        assert!(JONH.contains(&s.as_str()));
    }
}

#[test]
fn empty_list_gives_no_sentence() {
    assert_eq!(select_sentence(&[], None), NO_SENTENCE);
    assert_eq!(select_sentence(&[], Some(0)), NO_SENTENCE);
    assert_eq!(NO_SENTENCE, "nenhuma frase disponível.");
}

#[test]
fn pick_uses_random_only_without_index() {
    let list = ["a", "b", "c"];
    assert_eq!(pick_sentence(&list, None, Some("b")), "b");
    assert_eq!(pick_sentence(&list, None, None), NO_SENTENCE);
    assert_eq!(pick_sentence(&list, Some(2), Some("a")), "c");
    assert_eq!(pick_sentence(&list, Some(7), Some("b")), "a");
}

#[test]
fn request_names_person_and_index() {
    assert_eq!(get_sentence("thyria 3"), Ok(THYRIA[3].to_string()));
    assert_eq!(get_sentence("  THYRIA   5  extra"), Ok(THYRIA[5].to_string()));
    assert_eq!(get_sentence("jonhsullivan 1"), Ok(JONH[1].to_string()));
    assert_eq!(get_sentence("JonhSullivan +2"), Ok(JONH[2].to_string()));
    assert_eq!(get_sentence("thyria 99"), Ok(THYRIA[0].to_string()));
}

#[test]
fn request_with_bad_index_is_random() {
    let s = get_sentence("thyria abc").unwrap();
    assert!(THYRIA.contains(&s.as_str()));
}

#[test]
fn unknown_person() {
    assert_eq!(get_sentence("someone 1"), Ok(UNKNOWN_COMMAND.to_string()));
    assert_eq!(UNKNOWN_COMMAND, "comando desconhecido.");
    let args: Vec<Vec<char>> = vec!["x".chars().collect()];
    assert_eq!(sentence_for_args(&args), "comando desconhecido.");
}

#[test]
fn empty_request_is_refused() {
    assert_eq!(get_sentence(""), Err(CommandError::MissingCommand));
    assert_eq!(get_sentence(" \t "), Err(CommandError::MissingCommand));
}
