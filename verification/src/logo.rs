//! The logo: the launcher's own, a text file of the user's, or the caption
//! that stands for an image.

use vstd::prelude::*;
use crate::config::{Config, LogoType};
use crate::text::{lines_of, owned, split_lines, strings_view, text_view};

verus! {

/// The launcher's own logo.
pub const DOTT_LOGO: &'static str = r#"
    ;'*¨'`·- .,  ‘                   , ·. ,.-·~·.,   ‘             ,  . .,  °             ,  . .,  °    
    \`:·-,. ,   '` ·.  '            /  ·'´,.-·-.,   `,'‚       ;'´    ,   ., _';\'     ;'´    ,   ., _';\'  
     '\:/   ;\:'`:·,  '`·, '        /  .'´\:::::::'\   '\ °     \:´¨¯:;'   `;::'\:'\    \:´¨¯:;'   `;::'\:'\ 
      ;   ;'::\;::::';   ;\     ,·'  ,'::::\:;:-·-:';  ';\‚       \::::;   ,'::_'\;'      \::::;   ,'::_'\;' 
      ;  ,':::;  `·:;;  ,':'\'  ;.   ';:::;´       ,'  ,':'\‚          ,'  ,'::;'  ‘            ,'  ,'::;'  ‘   
     ;   ;:::;    ,·' ,·':::;   ';   ;::;       ,'´ .'´\::';‚         ;  ;:::;  °            ;  ;:::;  °   
     ;  ;:::;'  ,.'´,·´:::::;   ';   ':;:   ,.·´,.·´::::\;'°         ;  ;::;'  ‘             ;  ;::;'  ‘    
    ':,·:;::-·´,.·´\:::::;´'     \·,   `*´,.·'´::::::;·´            ;  ;::;'‚               ;  ;::;'‚      
     \::;. -·´:::::;\;·´         \\:¯::\:::::::;:·´               ',.'\::;'‚               ',.'\::;'‚      
      \;'\::::::::;·´'             `\:::::\;::·'´  °                 \::\:;'‚                \::\:;'‚      
         `\;::-·´                     ¯                             \;:'      ‘             \;:'      ‘  
                                       ‘                               °                      °         
                      
"#;

/// The caption shown in the screen for an image logo, which is itself drawn
/// before the screen is set up.
pub open spec fn image_caption(path: Seq<char>) -> Seq<char> {
    "\n\n  [Image Logo: "@ + path
        + "]\n  (Experimental: Use Kitty terminal)\n  (Image displayed before TUI launch)\n\n"@
}

/// The text of the logo of the given variant. `custom_file` is the content
/// of the user's logo file where it could be read. The launcher's own logo
/// stands in wherever the variant's own is not to be had.
pub open spec fn logo_text(variant: LogoType, config: &Config, custom_file: Option<Seq<char>>) -> Seq<
    char,
> {
    match variant {
        LogoType::Default => DOTT_LOGO@,
        LogoType::Custom => if config.custom_logo_path is Some && custom_file is Some {
            custom_file->0
        } else {
            DOTT_LOGO@
        },
        LogoType::Image => match config.image_logo_path {
            Some(path) => image_caption(path@),
            None => DOTT_LOGO@,
        },
    }
}

/// The text of the logo of the given variant.
pub fn get_logo_text_with_type(logo_type: LogoType, config: &Config, custom_file: Option<&str>) -> (text:
    String)
    ensures
        text@ == logo_text(logo_type, config, text_view(custom_file)),
{
    match logo_type {
        LogoType::Default => owned(DOTT_LOGO),
        LogoType::Custom => {
            match (&config.custom_logo_path, custom_file) {
                (Some(_), Some(content)) => owned(content),
                _ => owned(DOTT_LOGO),
            }
        },
        LogoType::Image => {
            match &config.image_logo_path {
                Some(path) => {
                    let mut text = owned("\n\n  [Image Logo: ");
                    text.append(path.as_str());
                    text.append(
                        "]\n  (Experimental: Use Kitty terminal)\n  (Image displayed before TUI launch)\n\n",
                    );
                    text
                },
                None => owned(DOTT_LOGO),
            }
        },
    }
}

/// The lines of the logo of the given variant, top to bottom.
pub fn logo_lines(logo_type: LogoType, config: &Config, custom_file: Option<&str>) -> (lines: Vec<
    String,
>)
    ensures
        strings_view(lines@) == lines_of(logo_text(logo_type, config, text_view(custom_file))),
{
    let text = get_logo_text_with_type(logo_type, config, custom_file);
    split_lines(text.as_str())
}

} // verus!
