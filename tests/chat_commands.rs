use rzmq::command::{parse_chat_command, tokenize, ChatCommand};

#[test]
fn chat_tokenizing() {
    assert_eq!(vec!["word", "word2"], tokenize("word word2"));
    assert_eq!(vec!["two words"], tokenize("\"two words\""));
    assert_eq!(vec!["word", "two words"], tokenize("word \"two words\""));
    assert_eq!(vec!["word", "two words"], tokenize("word 'two words'"));
}

#[test]
fn chat_chat_command_parsing() {
    assert_eq!(ChatCommand::Receive, parse_chat_command("".to_string()));
    assert_eq!(ChatCommand::Receive, parse_chat_command("--receive".to_string()));
    assert_eq!(ChatCommand::Receive, parse_chat_command("-r".to_string()));
    assert_eq!(ChatCommand::Send(String::from("message")), parse_chat_command("--send message".to_string()));
    assert_eq!(ChatCommand::Send(String::from("message")), parse_chat_command("-s message".to_string()));
    assert_eq!(ChatCommand::Send(String::from("message")), parse_chat_command("-s message".to_string()));
    assert_eq!(ChatCommand::Send(String::from("message")), parse_chat_command("message".to_string()));
    assert_eq!(ChatCommand::Send(String::from("multiple words")), parse_chat_command("multiple words".to_string()));
    assert_eq!(ChatCommand::Send(String::from("multiple words")), parse_chat_command("-s 'multiple words'".to_string()));
    assert_eq!(ChatCommand::SendTo(String::from("ID1"), String::from("message")), parse_chat_command("--id ID1 -s message".to_string()));
    assert_eq!(ChatCommand::Send(String::from("Hi again")), parse_chat_command("--send \"Hi again\"".to_string()));
}

#[test]
fn main_tokenizing() {
    assert_eq!(vec!["word", "word2"], tokenize("word word2"));
    assert_eq!(vec!["two words"], tokenize("\"two words\""));
    assert_eq!(vec!["word", "two words"], tokenize("word \"two words\""));
    assert_eq!(vec!["word", "two words"], tokenize("word 'two words'"));
}

#[test]
fn main_chat_command_parsing() {
    assert_eq!(ChatCommand::Receive, parse_chat_command("".to_string()));
    assert_eq!(ChatCommand::Receive, parse_chat_command("--receive".to_string()));
    assert_eq!(ChatCommand::Receive, parse_chat_command("-r".to_string()));
    assert_eq!(ChatCommand::Send(String::from("message")), parse_chat_command("--send message".to_string()));
    assert_eq!(ChatCommand::Send(String::from("message")), parse_chat_command("-s message".to_string()));
    assert_eq!(ChatCommand::Send(String::from("message")), parse_chat_command("-s message".to_string()));
    assert_eq!(ChatCommand::Send(String::from("message")), parse_chat_command("message".to_string()));
    assert_eq!(ChatCommand::Send(String::from("multiple words")), parse_chat_command("multiple words".to_string()));
    assert_eq!(ChatCommand::Send(String::from("multiple words")), parse_chat_command("-s 'multiple words'".to_string()));
    assert_eq!(ChatCommand::SendTo(String::from("ID1"), String::from("message")), parse_chat_command("--id ID1 -s message".to_string()));
    assert_eq!(ChatCommand::Send(String::from("Hi again")), parse_chat_command("--send \"Hi again\"".to_string()));
}

#[test]
fn tokenize_empty_and_blank_lines() {
    assert!(tokenize("").is_empty());
    assert!(tokenize("  \t ").is_empty());
}

#[test]
fn tokenize_single_character_words() {
    assert_eq!(vec!["a", "b", "c"], tokenize("a b  c"));
}

#[test]
fn tokenize_empty_quotes_give_an_empty_token() {
    assert_eq!(vec!["x", "", "y"], tokenize("x '' y"));
}

#[test]
fn tokenize_quote_ends_only_at_the_same_quote_character() {
    assert_eq!(vec!["it's here"], tokenize("\"it's here\""));
    assert_eq!(vec!["a", "b"], tokenize("'a' 'b'"));
}

#[test]
fn tokenize_unclosed_quote_is_dropped() {
    assert_eq!(vec!["say", "hi", "there"], tokenize("say \"hi there"));
    assert_eq!(vec!["end"], tokenize("end '"));
}

#[test]
fn tokenize_quote_inside_a_word_splits_it() {
    assert_eq!(vec!["ab", "c d"], tokenize("ab\"c d\""));
}

#[test]
fn parse_send_joins_the_words_that_follow() {
    assert_eq!(ChatCommand::Send(String::from("hello big world")), parse_chat_command("-s hello big world".to_string()));
    assert_eq!(
        ChatCommand::SendTo(String::from("X"), String::from("hi there")),
        parse_chat_command("-s hi there --id X".to_string())
    );
}

#[test]
fn parse_receive_with_send_falls_back_to_the_raw_line() {
    assert_eq!(ChatCommand::Send(String::from("-r -s x")), parse_chat_command("-r -s x".to_string()));
    assert_eq!(ChatCommand::Send(String::from("-r --id X")), parse_chat_command("-r --id X".to_string()));
}

#[test]
fn parse_malformed_flags_fall_back_to_the_raw_line() {
    assert_eq!(ChatCommand::Send(String::from("-s")), parse_chat_command("-s".to_string()));
    assert_eq!(ChatCommand::Send(String::from("--id X")), parse_chat_command("--id X".to_string()));
    assert_eq!(ChatCommand::Send(String::from("--id -s x")), parse_chat_command("--id -s x".to_string()));
    assert_eq!(ChatCommand::Send(String::from("-r -r")), parse_chat_command("-r -r".to_string()));
    assert_eq!(ChatCommand::Send(String::from("-s a -s b")), parse_chat_command("-s a -s b".to_string()));
    assert_eq!(ChatCommand::Send(String::from("word -r")), parse_chat_command("word -r".to_string()));
}

#[test]
fn parse_blank_line_is_sent_as_typed() {
    assert_eq!(ChatCommand::Send(String::from("   ")), parse_chat_command("   ".to_string()));
}

#[test]
fn tokenize_splits_on_unicode_whitespace() {
    assert_eq!(vec!["a", "b"], tokenize("a\u{3000}b"));
    assert_eq!(vec!["a", "b", "c", "d"], tokenize("a\u{a0}b\u{2009}c\u{85}d"));
    assert_eq!(vec!["x\u{3000}y"], tokenize("'x\u{3000}y'"));
    assert_eq!(vec!["a\u{200b}b"], tokenize("a\u{200b}b"));
}
